pub mod connector;
pub mod loglevel;
pub mod vec3;

pub use connector::Connector;
pub use loglevel::Loglevel;
pub use vec3::Vec3;
