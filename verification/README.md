# rmcp-in-process-transport

A transport for rmcp that connects a client and a server inside one process
through two bounded tokio channels, instead of a child process.

- `src/` is the verified library: the channel pair (`transport`), the sink that
  keeps at most one message aside while its channel is full (`sink`), the
  stream (`stream`), the error and its messages (`error`), and the trusted
  calls into tokio (`channel`).
- `app/` holds the runtime glue: the `futures` `Sink`/`Stream` impls, the rmcp
  `IntoTransport` impls, and `TokioInProcess`, which runs the server in a tokio
  task.
