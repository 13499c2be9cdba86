# glass_core

The decisions behind three parts of Glass, written in Rust and proved with Verus:

- the App Store Connect pages and the services page that hosts them (`asc_*`, `service_*`,
  `services_*`, `hub`, `input`, `lookup`, `load_state`, `text`, `file_path`, `appearance`),
- the dialog that builds and runs a workspace's projects (`runtime_actions`),
- the life of the embedded browser: finding its files, its settings, its start and end, the
  pumping of its messages, and the frames it paints (`cef_runtime`, `cef_settings`,
  `cef_instance`, `render_handler`).

Every type has a mathematical value, its deep view. The contract of a function says what its result
and the values it changes are, as functions of the values it was given. What holds across several
functions stands in public proof functions (`lemma_*`), most of them for the App Store Connect pages
in `asc_laws`.

`app/` holds what surrounds the library: windows, processes, files, the parsing of JSON and the
calls into the browser's library. `tests/` runs the library on concrete values.

What is not proved: `text` relies on the documented behavior of `String::push`.
