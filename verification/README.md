# engine

The control logic of a 1.5-layer reduced-gravity model of the equatorial
Pacific thermocline, verified with Verus.

- `src/` is the verified library: which steps of a run are saved and how many
  frames a run promises (`run_writer`), how a run hands them out step by step
  (`run_loop`), how a progress reporter decides what to write and when
  (`progress`), how a timestep's measured time divides among its phases and
  kernels (`profiling`, over `clock`), the memory budget a grid is held to
  (`scenario`), and the small vocabulary the rest shares (`cli`, `integrator`,
  `precision`, `run`, `state`).
- `app/` is the `termocline` command around it: the floating-point physics
  (basin, forcing, right-hand side, Coriolis, SST coupling, solver), scenario
  and run files, and the terminal.
- `tests/` exercises the library from outside.
