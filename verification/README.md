# amqp_examples

The message handling of a set of RabbitMQ example programs, verified with Verus.

- `src/fib.rs`: Fibonacci numbers, with and without an overflow check.
- `src/text.rs`: decoding of message bodies (UTF-8, trimmed decimal numbers) and
  the decimal text of numbers, over the standard library's conversions.
- `src/rpc.rs`: the Fibonacci RPC server's decision for a delivery, the client's
  request and its reading of the reply, and the proof that a request answered by
  the server comes back to the client as the Fibonacci number asked for.
- `src/work.rs`: work messages whose dots give their processing time, and the
  proof that the consumer counts as many dots as the publisher put in.
- `src/severity.rs`: the supported log severities, argument checks and usage lines.
- `app/`: the programs themselves (connections, queues, consuming and
  publishing through `amiquip`), run as `<example> <consumer|publisher> [args...]`.
