# rrandr

The layout logic of a configuration tool for the RandR extension of the X Window
System, written in Verus: every function under `src/` carries a contract that Verus
proves, but for three wrappers in `src/text.rs` (`push_char`, `from_utf8_lossy`,
`trim_end`). Their contracts describe the std functions they call (`String::push`,
`String::from_utf8_lossy`, `str::trim_end`) and are trusted, not proved.

## Layout

- `src/math.rs`, `src/g_math.rs`: rectangles of outputs on the screen (union,
  intersection, bounds, overlap of output nodes).
- `src/enums.rs`, `src/update.rs`, `src/values.rs`: rotation and reflection with their
  RandR masks and xrandr names, the kinds of output updates, 16-bit property values.
- `src/mode.rs`, `src/modes.rs`: display modes, the resolutions of an output, and the
  order in which scrolling walks through its modes.
- `src/output.rs`, `src/outputs.rs`: outputs with their configuration (mode, size,
  rotation, position), and lists of outputs.
- `src/randr.rs`: the model of the X server's RandR state: checks of CRTC
  configurations, the choice of a CRTC for an output, the screen size a layout needs,
  events that change the state, the outputs as the server reports them, monitor names
  in EDID blocks.
- `src/plan.rs`: the requests that apply a layout and those that restore a saved
  configuration, computed before any is sent.
- `src/xrandr.rs`: the xrandr command of a layout.
- `src/window.rs`, `src/details.rs`, `src/disabled_area.rs`, `src/output_view.rs`: the
  decisions of the user interface (areas of enabled and disabled outputs, the details
  of an output, revert countdown, keyboard actions).
- `src/config.rs` and `src/config/`: configuration values (colors, fonts, optional
  values) and the Markdown tables that document them.
- `app/`: the command line program around the library: reading the configuration
  file, talking to the X server, floating point computations (refresh rates, pixel
  densities, scales).
- `tests/`: tests of the library on concrete values.
