# winit_gtk

The rules of a GTK windowing backend, verified with Verus.

- `src/` holds the library. It knows nothing of GTK: its functions take plain
  values read from the toolkit and say what to do.
  - `geometry`, `pointer`: which edge of an undecorated window the pointer is on,
    and the resize that follows.
  - `request`: which toolkit calls carry out a request of the application.
  - `signals`, `event`, `scale`: which events a toolkit signal is reported as, in
    physical pixels, and which method of the application gets them.
  - `event_loop`, `timeout`: in which order the event loop does its work, and how
    long it waits.
  - `thread`: whether the caller runs on the main thread.
  - `window`, `unix`: attributes of windows, monitors and event loops.
- `app/` holds the GTK side: it reads the values, asks the library and makes the
  calls. It needs the GTK 3 development libraries.
- `tests/` holds the tests of the library.
