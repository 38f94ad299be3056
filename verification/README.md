# opengl3_hooks

An overlay that is drawn inside another program's OpenGL window, from a detour
of `wglSwapBuffers`, with ImGui or with egui.

- `src/` holds the decisions, verified with Verus: when a renderer is made and
  when it goes (`state`, `renderer`, `viewport`, `lock`), what a frame asks the
  window system and tells the toolkit (`frame`, `clock`, `geometry`, `win32`),
  how a hook is installed and removed (`hooks`, `once`), and what the egui window
  shows (`panel`, `text`).  `laws` states what holds over more than one call.
- `app/` makes the calls to the window system, to OpenGL and to the toolkits.
- `tests/` runs the library.
