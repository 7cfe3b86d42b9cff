# Scatter

Scatter draws the sky above a place in real time: the sun, the light it scatters, and the stars.

The library under `src/` holds what the program decides:

- `schedule`, `time_control`, `time` — when a window may render, and which moment it shows
- `meridian`, `degrees`, `clock` — coordinates, the clock of a longitude, and the local calendar
- `config` — what the configuration file may say, and the watch on it
- `projection`, `angle`, `geometry` — the camera, the unrolled sky, and where they lie in a window
- `output` — the surface format
- `display` — the order of displays
- `stars` — the rows of the star catalogue
- `renderer`, `app` — what a renderer shows, and what happens to the windows

The contracts speak of integers: angles in billionths of a degree, focal lengths in nanometres,
times in nanoseconds, viewports in exact fractions of a pixel. Configured coordinates are the bits of
the number in the file, and their meaning is exact too.

`app/` is the program around the library: the command line, the files, the windows and the GPU, and
the floating-point astronomy that the shaders are fed with. It reads its shaders from `shaders/` and
its star catalogue from `data/stars/`.
