# katoptron

Katoptron forwards window events of one desktop (the sender, on Windows) to
another (the receiver, on Linux), where flashing windows show up as desktop
notifications and as a StatusNotifierItem that asks for attention.

The library in `src/` holds the protocol and the decisions of both programs,
verified with Verus:

- `wire`: the frame format ("FACEBOOK_CAT", a little-endian size, the
  payload), the receiving state machine with its buffer, exact reads and the
  contexts of failed reads and writes;
- `message`: messages and notifications, the handshake of both sides, what
  the receiver does with each message, what the sender does on each event,
  its retry policy, and the notifications of shell events;
- `errors`: the error types, their kinds, their messages and cause traces,
  and the conversions between them;
- `status`: the receiver's status item: unread count, properties, and the
  memory of recent flashes that keeps a flashing window from flooding the
  desktop;
- `poll`: epoll watch modes, events and their D-Bus watch flags;
- `cli`: the receiver's port argument and the sender's configuration file;
- `wake`: the bytes of the receiver's wake-up counter.

`app/` is the program around it: sockets, the payload codec, threads, D-Bus,
epoll and eventfd, and the Windows message loop. Run as `katoptron-send` it
is the sender, under any other name the receiver.
