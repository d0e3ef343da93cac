//! Singly linked lists with stack (LIFO) discipline, in three forms:
//! a fixed-element-type list built on an explicit node-or-empty enum
//! (`first`), the same structure expressed with optional ownership
//! (`second`), and a generic list that adds borrow-based access to the
//! top element (`generic_lists`).
//!
//! Every list owns its chain of nodes linearly: the list owns the head
//! node, and each node owns its successor. Each list is abstracted as a
//! sequence of its elements, oldest first, so that the top of the stack
//! is the last element of the sequence. Teardown is iterative, so
//! dropping a long list never recurses down the chain.

pub mod first;
pub mod generic_lists;
pub mod lifo;
pub mod second;
