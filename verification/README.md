# touchhle_core

The logic of a runtime for iPhone OS apps, with each function's contract
checked by Verus.

- `src/` is the library, verified: the guest-object state of several UIKit,
  MediaPlayer and AudioToolbox classes, the C++ ABI destructor registry and
  exception personality routine, `stat`/`fstat`/`mkdir`, YUV to RGB
  conversion, and the launch hand-off from the Android front end. Functions
  that the runtime answers with guest memory writes, OpenGL or OpenAL calls
  take the outcomes of that work as plain values and return what is to be
  done (reference-count operations, calls to make, frames to upload).
  Probing the movie file goes through `symphonia` and H.264 decoding
  through `openh264`, behind trusted wrappers in `src/movie_player.rs`.
- `app/` is ordinary Rust around it: process-wide state, the JNI entry points,
  the clock, log output, reading movie files and their packets, errno, and the
  floating-point parts of a few UIKit classes.
- `tests/` exercises the library through its public interface.
