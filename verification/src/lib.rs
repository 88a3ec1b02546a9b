pub mod ast;
pub mod bbq;
pub mod broadcast;
pub mod builder;
pub mod document;
pub mod error;
pub mod exchange;
pub mod frame;
pub mod generate;
pub mod grammar;
pub mod layout;
pub mod names;
pub mod pad;
pub mod parser;
pub mod render;
pub mod resolve;
pub mod ring;
pub mod syntax;
pub mod text;
pub mod transport;
pub mod types;
pub mod yule;

pub use error::Error;
pub use pad::ZeroPad;
pub use transport::{BufR, BufW, BusRx, BusTx, Recv, Responder, ServiceRx, ServiceTx};
pub use yule::{Wire, Yule};
