pub mod dense;
pub mod descriptor;
pub mod error;
pub mod options;
pub mod solver;
pub mod sparse;
pub mod super_matrix;
pub mod worker;

pub use dense::{DenseMatrix, DenseView};
pub use descriptor::{DataKind, Descriptor, DescriptorView, MathKind, StorageKind, Store, StoreView};
pub use error::SolverError;
pub use options::{Options, SuperluOptions};
pub use solver::{resume, solve, solve_super_lu, Launch, SolveAction, SolveEvent, SolveState};
pub use sparse::{CompressedStorage, CsMat, CsMatView};
pub use super_matrix::{drop_action_for, DropAction, FromSuperMatrix, SuperMatrix, SuperMatrixView};
pub use worker::{worker_resume, worker_start, NativeCall, WorkerAction, WorkerEvent, WorkerState};
