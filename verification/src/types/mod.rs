pub mod array;
pub mod le;
pub mod prim;
pub mod vec;
