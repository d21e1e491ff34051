# native_sender

The decision logic of the MyCord native capture sender, verified with Verus.

- `src/api.rs`: API endpoint URLs, the token request, and how health and token
  responses are judged.
- `src/config.rs`: command line defaults and the precedence of command line,
  environment and defaults.
- `src/capture.rs`: the frame pacing schedule of the capture probe.
- `src/pipeline.rs`: the counters of the capture loop and of the pipeline stages.
- `src/platform/`: backend selection, the capture backends' names and notices,
  the Windows bootstrap state machine, capture fallbacks, the ffmpeg command
  lines and DXGI adapter reports.
- `src/publisher.rs`: the token size and preview that the publisher announces.

`app/` is the program around the library: command line parsing, environment
and `.env` loading, HTTP calls, clocks, sleeps, threads, screen capture and
ffmpeg processes, and the floating-point rates of the probes.
