# jetson

The control logic of the NVIDIA Jetson hardware video encoder, and of the zero-copy screen capture
that feeds it, written and proved in Verus.

On Jetson boards the encoder block is reached only through `NvBufSurface` buffers and a V4L2 device.
Frames stay in GPU memory:

- a GPU frame, converted from the KMS scanout, goes to the encoder as an NV12 surface;
- a CPU frame is uploaded to an RGB surface, converted to NV12 and goes the same way.

Conversion and encoding each take long enough that waiting for a frame's own bitstream would halve
the frame rate, so one frame stays in flight and each call returns the frame before.

## Layout

- `src/` decides. It never touches the device: `encode_to_message` and `convert` hand out an
  action, the caller performs it and hands the answer to `resume`.
  - `surface`, `format`, `frame`, `error`, `text`: surfaces, codecs, pictures, failures in words.
  - `encoder_model`, `capture_model`: the two state machines as mathematics.
  - `encoder`, `capture`: the code, proved equal to them step by step.
  - `encoder_laws`, `capture_laws`: what holds over whole dialogues with the device.
  - `status`: which codecs are available.
  - `search`: the first element with a property.
- `app/` performs the actions on the real device.
- `tests/` runs the library against a scripted device.
