# usque-rs

The core of a client for Cloudflare WARP over MASQUE, verified with Verus.

`src/` decides, `app/` acts:

- `register`, `account`, `failure`, `status`, `headers`: the requests that register a
  device and enroll its key, and what becomes of the replies.
- `identity`, `clock`, `base64`, `text`: the texts that the requests hold.
- `keypair`, `keys`, `certificate`, `tls`, `report`: in which steps the key pair, the
  certificate and the QUIC configuration are made and from which keys, which endpoint
  is accepted, and how a failed step is reported.
- `tun_device`, `linux_link`, `windows_link`: how the TUN interface is created and
  configured.

`app/` sends the requests, works with BoringSSL and quiche, and configures the
interface over netlink or the IP helper, one step at a time, as `src/` says.
