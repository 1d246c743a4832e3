# quadpack

Numerical integration with the QUADPACK routines (QAGS, QAGI) through their
native Fortran library.

- `src/` is the verified library: workspace sizing (`scratch`), the choice of
  routine for an interval (`interval`), the meaning of the routines' status
  codes (`status`) and of the machine-constant codes that the Fortran code asks
  for (`machine`).
- `app/` makes the foreign calls: the integrand type, `integrate_qags`,
  `integrate`, and the `xermsg_`, `r1mach_` and `d1mach_` callbacks.
- `tests/` exercises the library.
