# scuffle_ffmpeg

A verified model of a safe interface to FFmpeg: frames and their data planes,
decoders, encoders and their settings, filter graphs, scalers, outputs (muxing)
and hardware acceleration contexts.

`src/` holds the library, verified with Verus. Its types hold, as plain values,
what the FFmpeg structures they stand for hold (`raw`), and its functions make the
decisions around FFmpeg's calls: they take what a call returned as an argument and
say, in their contracts, what comes of each value. `FrameData` addresses the bytes
of a plane whose rows may be stored bottom-to-top.

`app/` holds the FFmpeg side: the calls into FFmpeg and the conversions between
FFmpeg's structures and the library's values.

`tests/` runs the library on concrete values.
