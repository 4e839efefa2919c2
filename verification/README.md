# DOOM fire

The fire of the DOOM title screens as a terminal stress test. The program takes
over the alternate screen, shows a preview of the terminal's colors with a
marquee, and then burns until it is stopped.

Both stdin and stdout must be terminals. Return goes on from a prompt, `q` and
Return quits. Ctrl-C stops the fire; on Unix SIGTERM does so too, and Ctrl-Z
gives the screen back before the program is suspended, until `fg` brings it
back. The fire adapts to the terminal's size, which has to be at least 1 column
by 2 rows and at most 1,000,000 cells; for the preview, 120 columns by 22 rows
are recommended.

## Layout

`src/` is the verified library. It decides everything: which bytes go to the
terminal, and what to do next.

- `text`, `ansi`: numbers, UTF-8 and control sequences.
- `size`, `prompt`, `signals`, `console`: what the system reports, and what it
  means.
- `rng`, `fire`: the random numbers and the fire.
- `memory`, `frame`, `frame_laws`: frames, and what holds of every frame.
- `app`, `screens`, `session`, `session_laws`, `screen_laws`: the program as a
  machine that takes one event after another, and what holds of every course it
  can take.

The functions named `law_…` state what the library promises as a whole.

`app/` is the program around it: system calls, threads, the clock, and the
floating-point numbers of the status line.
