//! Message handling of a set of AMQP example programs: a Fibonacci RPC server and
//! client, work queues whose messages carry their processing time as dots, log
//! routing by severity, and the text decoding shared by every consumer.

pub mod fib;
pub mod text;
pub mod rpc;
pub mod work;
pub mod severity;
