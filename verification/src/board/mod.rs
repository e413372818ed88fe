pub mod board_def;
pub mod board_gen;
pub mod codegen;
