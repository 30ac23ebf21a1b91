# tinic

The verified core of Tinic, a small libretro front end.

`src/` holds the decisions of the front end, each proved against its contract by Verus:

- `options`, `option_file`: the options a core declares, the user's picks, the counter of
  picks the core has not read, and the `key=value` file they are kept in.
- `retro_core`, `environment`, `system`, `av_info`: the lifecycle of a core, the answers to
  its environment requests, what it says about itself and its video parameters.
- `game_tools`: rom names, rom extensions and the place of save states.
- `devices`: the keyboard joypad, the ports handed to gamepads and the input a core reads.
- `video`, `audio`, `gl_objects`: screenshots, frame pacing, audio blocks and the OpenGL
  objects of the renderer.
- `database`: the SQL of the game library and the choices around running it.

`app/` holds what touches the outside world: files, SQLite, keyboard events and images on
disk. `tests/` exercises the library on concrete values.
