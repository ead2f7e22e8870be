//! A demand-driven backpressure adapter: a consumer that sits between a
//! data producer and a synchronous, possibly short-writing or failing
//! byte sink, and exposes a pull-based protocol so the producer never
//! sends more data than the consumer has asked for.

pub mod consumer;
pub mod event;
pub mod laws;
pub mod sink;

pub use consumer::ConsumerView;
pub use consumer::WriteAdapterConsumer;
pub use event::ConsumerError;
pub use event::ConsumerEvent;
pub use sink::AcceptingSink;
pub use sink::FailingSink;
pub use sink::LimitedSink;
pub use sink::Sink;
pub use sink::SinkError;
