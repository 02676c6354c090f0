# Pomme Screenshare

A small screen sharing tool. A relay passes what one client shares on to all the others; a client
shares a window, and shows what another one shares.

The logic is a library, verified with Verus. The programs around it are ordinary Rust.

## The library, `src/`

- `wire`: frames on a stream, a length in front of each.
- `server`: the relay. What it makes of a client's packets, what each client is sent, what the log
  says.
- `client`: the client.
  - `message`, `receive`: messages, and what becomes of them: video goes to the decoder, a frame
    that grows too old is taken away.
  - `share`, `stream`: the windows that can be shared, their previews, and sharing one: encoding,
    sending, keeping time.
  - `h264_encoder`, `media_foundation`: the encoders.
  - `app`, `view`: the state of the window, what it shows, what a click does.
  - `video`, `stats`: the frame on the canvas, the counts for the log.
- `demo`: a window that needs no relay.
- `protocol`: what clients and relay promise each other, proved of the functions above.
- `h264`: the headers of a video stream, as far as they say how pictures are cropped.
- `text`, `picture`: text and pictures, on the level that the rest needs.
- `codec`: the boundary to the `openh264` crate. `picture` holds the boundary to `image`.

What is believed of other crates stands in `codec` and `picture`, and, of the standard library, in
`picture` and `client::share`, each item with a comment that says what it claims.

## The programs, `app/`

`demo`, which is the default, opens a window with a `Connect` and a `Quit` button, which shows black
and white in turn. `client` opens the client's window. `server` listens on port 1337.

The windows are drawn with [GPUI](https://www.gpui.rs/), which the manifest leaves to those who build
them. Windows are listed with `xcap` and captured with `windows-capture`.
