# api_s3

The core of an image-resizing HTTP service that fetches images from S3 /
MinIO, resizes them for a device and returns WebP, written in Verus.

- `src/` is the verified library:
  - `models`: device targets (and their quality) and resource categories, with
    case-insensitive parsing (lower-casing rests on std's `to_lowercase`; for
    ASCII names the result is proved); request shapes.
  - `controllers::resources`: the decisions for single and batch requests
    (width cap, device target, category, path-traversal guard, storage key)
    and the streamed `multipart/mixed` framing of batch answers (one
    `image/webp` part per processed item, in the order the items were asked).
  - `services`: the byte-bounded image cache (one entry per image, size and
    device, and a proved read-back law over any history), the multipart builder, the
    storage decisions (key guard, failure classification, body acceptance,
    settings) and the image pipeline (decode, resize, encode), whose calls
    into libwebp, zune-jpeg, `image` and `fast_image_resize` sit behind
    trusted wrappers.
- `app/` is the server: routing, extraction, S3 calls, threading of the
  pipeline, the floating-point steps (target size, sharpening) and telemetry.
- `tests/` exercise the library on concrete values.
