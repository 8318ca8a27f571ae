# lfit_rs

Light-curve model of eclipsing dwarf novae (white dwarf, disc, bright spot
and Roche-lobe filling donor).

- `src/` is the verified library: the discrete bookkeeping of the model.
  `disc` lays out the ring grid of the disc, `brightspot` the grid of the
  two bright-spot strips, `donor` the latitude strips of the donor and its
  choice between the tiled and the analytical model, `whitedwarf` and `blink`
  the step counts of the eclipse integrations, `binning` the trapezoidal
  weights of phase bins, and `errors` the errors and the Python exception
  class each is raised as.
- `app/` holds the Python bindings and the floating-point physics, which call
  the library for the above.
- `tests/` exercises the library on concrete values.
