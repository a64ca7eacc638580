# Accord Voice

Accord Voice is a peer-to-peer desktop voice calling application. There is no central signaling
server: each node makes a ticket that holds what another node needs to connect to it.

The library under `src/` holds the decisions of the application, verified with Verus:

- `call`, `call_laws`: the call actor, and what holds of it over every run
- `audio`, `capture`, `playback`, `frames`, `ring`: device and stream choice, framing, queues
- `transport`: RTP packets
- `ticket`, `endpoint`: tickets and the identity of the node
- `gui`, `qr`: what the window shows and asks for, and the picture of the ticket
- `error`, `text`: errors and text

The program under `app/` opens the audio devices (cpal), the codec (Opus), the network (iroh,
iroh-roq) and the window (iced). It hands plain values to the library and performs the actions that
come back.

## Usage

1. Launch the application on both machines.
2. On the first machine, copy the local ticket or scan the QR code.
3. On the second machine, paste the ticket into the remote ticket field and press **Call**.
4. On the first machine, press **Accept** or **Reject**.
5. **Hang up** ends the call. **Mute** silences the microphone while the call goes on.

The identity of a node is a secret key in the file `identity.key`, in the directory `Accord` where
the platform keeps configurations (`~/.config/Accord/` on Linux; on macOS the directory is named
`com.Accord.Accord`).
