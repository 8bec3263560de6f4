pub mod shell;
