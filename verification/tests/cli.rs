use move_passes::cli::Args;

#[test]
fn nothing_given_means_defaults() {
    let args = Args::default();
    assert!(!args.skip_private);
    assert!(!args.skip_code);
    assert!(!args.skip_locals);
    assert!(!args.skip_basic_blocks);
    assert!(!args.is_script);
    assert!(!args.llvm_ir);
    assert!(!args.obj);
    assert_eq!(args.bytecode_file_path, None);
    assert_eq!(args.move_package_path, None);
    assert_eq!(args.compile, None);
    assert_eq!(args.output_file_extension, "ll");
    assert_eq!(args.output_file_path, "-");
    assert_eq!(args.gen_dot_cfg, "");
    assert_eq!(args.dot_file_path, "");
    assert!(args.bytecode_dependency_paths.is_empty());
    assert!(args.test_signers.is_empty());
}
