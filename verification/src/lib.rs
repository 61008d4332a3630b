//! Backend of an arithmetic-circuit compiler: it lowers a tree-shaped
//! instruction representation ("buckets") into procedural C code, including
//! the producer/consumer synchronization protocol that lets sub-components
//! of the generated program run on worker threads.
pub mod c_code_generator;
pub mod circuit_design;
pub mod c_elements;
pub mod compilation_user;
pub mod constants;
pub mod execution_user;
pub mod intermediate_representation;
pub mod laws;
pub mod text;
