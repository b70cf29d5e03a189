pub mod triple;
