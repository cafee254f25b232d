# Reticulum Proxy

A bridge between Reticulum and TCP. As a SOCKS5 proxy it connects clients to Reticulum
destinations, such as `http://ffbaa173393b55617485bbcfb248d14c.rns`; as a reverse proxy it
connects destinations of its own to TCP ports.

`src/` is the library, verified with Verus. It decides what becomes of links, requests, streams
and routes, and waits for nothing:

- `instance`, `model`: the event loop of an instance as a state machine. A wakeup turns into
  a step; the outcome of the step goes back in and gives the next one.
- `stream`: what reads, writes and shutdowns of a stream come to.
- `socks`: who is let in, and where a connection goes.
- `reverse`: what becomes of the mappings of the reverse proxy.
- `client`: announced destinations and the streams to them.
- `ids`, `text`, `error`: hashes, link ids, and texts.
- `channel`: what is relied on of tokio's channels without proof, and the record of what is sent.
- `history`, `queue`, `laws`: what holds of all of this together.

`app/` is ordinary Rust around it: options, sockets, the files of identities and mappings, and
the Reticulum node.

## Usage

```bash
proxy -l 127.0.0.1:1080 -r 127.0.0.1:4242 no-auth
reverse-proxy -m mappings.json -i identity -c 127.0.0.1:4242
```

`proxy` and `reverse-proxy` are one binary under two names. Under any other name it is the
SOCKS5 proxy that keeps the announced destinations itself.

A file of mappings gives each destination a name and a TCP port:

```json
{
    "test": {
        "aspects": ["test"],
        "forward_to": "127.0.0.1:8080"
    }
}
```
