//! The core of a server that keeps documents in spaces and answers questions
//! about them: the dispatcher of its background tasks and the three kinds of
//! task that it drives, and the decisions that the server makes on its
//! spaces, its users and the requests that reach it.
//!
//! Nothing in this library waits or touches the store, the disk or the
//! network. Whatever needs them is asked of a driver, as a request, and the
//! library goes on with the reply of the driver.

pub mod api;
pub mod custom_uri;
pub mod node;
pub mod records;
pub mod space;
pub mod status;
pub mod tasks;
pub mod text;
pub mod user;
pub mod utils;
