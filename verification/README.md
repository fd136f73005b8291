# firmware

The build configuration of an MSPM0 (Cortex-M0+) firmware, verified with Verus.

- `src/recipe.rs`: the build recipe, an ordered list of steps (project, optimisation
  level, warnings, workarounds, linker options, CPU, CMSIS, include directories,
  C files, defines, linker script).
- `src/mspm0.rs`: the MSPM0 parts, the family define, linker script, startup file and
  system-control driver of each, the steps that add a part to a build, and the
  proved relations between these tables.
- `src/src.rs`: the firmware's own sources.
- `src/makefile.rs`: the whole recipe of the firmware.
- `app/main.rs`: carries the recipe out with the build system.
