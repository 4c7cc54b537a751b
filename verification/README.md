# fltk-webview

Webview functionality for embedded fltk windows.

- `src/` is the verified library. Each operation of a `Webview` returns the
  native call it makes (`Call`), with every string argument encoded as a C
  string (`CText`). The contracts state the exact bytes each call carries, when
  a string can be passed at all (it holds no NUL), how the arguments of a
  binding call are read, which calls release a webview, and how many GTK events
  one tick of the event pump handles. `src/laws.rs` holds the properties that
  span several operations.
- `app/` performs the calls through the native webview library, owns the
  callbacks of `bind` and `dispatch`, and embeds the webview in an fltk window
  (`FromFltkWindow::create`).
- `tests/` runs the library on concrete values.
