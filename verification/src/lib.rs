//! The core of a small books catalogue service: the domain model, the
//! request and response shapes of its one endpoint, the handler that answers
//! it, and the registration of endpoints under distinct names. Beside them
//! stand the two decisions of the tooling around the service: when the saved
//! schema has to be written, and what follows each stage of a build.

pub mod handlers;
pub mod identity;
pub mod model;
pub mod pipeline;
pub mod proto;
pub mod registry;
pub mod schema_file;
pub mod state;
pub mod status;

pub use handlers::books_list;
pub use registry::builder;
pub use state::AppState;
