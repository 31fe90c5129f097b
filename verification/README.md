# QDEngine

A WebSocket gateway between trading clients and WebCTP (a WebSocket front for
the CTP futures-trading API). Clients connect, complete a token handshake, and
then send instructions that open market-data and trade connections to a
WebCTP gateway and drive them; gateway events are relayed back as reports.

## Layout

- `src/` — the verified library (Verus):
  - `text` — decimal rendering of integers;
  - `webctp` — gateway message codes, the requests sent to the market-data
    and trade fronts (`market_data`, `trade`, `request`) and the
    classification of the messages they send;
  - `server` — configuration and listening address; `message` (instructions
    and reports); `controller` (the connection handshake and session
    tokens); `service` (the per-connection step, instruction handling and
    the backtest queue).
- `app/` — the program: axum/tokio sockets, JSON (de)serialisation with
  serde, the tasks that own gateway connections.
- `tests/` — tests of the library.

Client protocol: the server greets with `{"code": 1, "msg": "connected",
"data": {"token": ...}}`; the client answers `{"action": "Handshake", "data":
{"token": ...}}` with the same token. Negative codes are errors; code 0
confirms the handshake.
