//! A traversal engine over the typed intermediate representation of a
//! function body, and the bookkeeping that surrounds it.
//!
//! `ast` is the tree and `model` its mathematical view. `visitor` is what a
//! pass implements, `walk` says what a traversal does with it, and
//! `dispatcher` is the engine, proved to do just that. `trace` and `laws`
//! hold what follows for every visitor; `visitors` holds a few small ones.
//!
//! Beside the engine stand the registration of intrinsic declarations
//! (`intrinsics`, over the map of `assoc`), the search for a definition
//! (`goto_definition`), the rule on lock file versions (`lock_file`) and the
//! options of the command line (`cli`).

pub mod assoc;
pub mod ast;
pub mod cli;
pub mod dispatcher;
pub mod goto_definition;
pub mod intrinsics;
pub mod laws;
pub mod lock_file;
pub mod model;
pub mod trace;
pub mod visitor;
pub mod visitors;
pub mod walk;
