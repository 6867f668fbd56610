//! Browsing the contents of a support bundle: the index of its entries, the
//! accessors that hand out their bytes, and the dashboard state machine that
//! navigates and buffers them.
pub mod archive;
pub mod buffer;
pub mod bundle_accessor;
pub mod control;
pub mod dashboard;
pub mod error;
pub mod index;
pub mod screen;

pub use bundle_accessor::AsyncZipFile;
pub use bundle_accessor::FileAccessor;
pub use bundle_accessor::LocalFileAccess;
pub use bundle_accessor::SupportBundleAccessor;
pub use control::run_support_bundle_dashboard;
pub use dashboard::StreamingFile;
pub use dashboard::SupportBundleDashboard;
pub use error::DashboardError;
pub use error::FileAccessError;
pub use error::IndexError;
pub use index::SupportBundleIndex;
