pub mod bysykler;
pub mod fetch;
pub mod gbfs;
pub mod link_future;
pub mod select;
pub mod timezone;

pub use bysykler::Bysykler;
pub use bysykler::Msg;
pub use bysykler::RenderedPage;
pub use fetch::FetchError;
pub use fetch::FetchState;
pub use gbfs::Gbfs;
pub use gbfs::SystemInformation;
pub use link_future::Link;
pub use link_future::LinkFuture;
pub use select::Select;
