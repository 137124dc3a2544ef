# company-ci, verified planning core

`company-ci` is the command palette of a CI lab repository: it parses a
command line, works out which areas of the repository a change touches,
and turns each command into a plan of steps with the tools, env contracts
and dry-run notes it needs.

- `src/` is the planning library, verified with Verus: command-line
  parsing, change-impact detection, image, OpenShift and publish settings,
  every plan builder, and the order in which a runner acts on a plan.
  Each public function states its result exactly over spec functions; the
  laws of the library are public proof functions.
- `app/` is the binary around it: it reads the process environment and the
  file system, hands them to the library as plain values,
  and performs the actions the library decides on.
- `tests/` runs the library on concrete inputs.
