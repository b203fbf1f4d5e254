//! Small command-line tools: a persistent todo list, a string reverser and a
//! palindrome check. The todo operations work on an in-memory list of records;
//! reading and writing the store file happens around them.
pub mod text;
pub mod todo;
pub mod store;
