# cea

A verified core for a safe interface to NASA's CEA (Chemical Equilibrium with
Applications) C library.

The library (`src/`) holds everything the interface decides on its own: which
arguments are refused and with which error, how a status code becomes a result, how
species names are cut out of the name buffers the C library fills, how an equilibrium
problem is built from its settings and solved, how the properties of a solution are
read, and how a parallel run of many cases is cut into chunks and its results gathered.
Each C routine an operation needs is handed to it by the caller as a function that
receives the handles and prepared arguments and answers with the routine's status and
results; the contracts say what the operation does with every answer.

- `error`: the error type and the status check.
- `args`: lengths, NUL checks and reading names from C buffers.
- `handle`: ownership of the objects CEA hands out.
- `kinds`: log levels, equilibrium types, properties; start-up and log level.
- `mixture`, `eqsolver`: mixtures, solvers, solutions and partial derivatives.
- `high_level`: equilibrium problems, their builder, results and one-shot solves.
- `parallel`: planning parallel runs and gathering their results.

`app/` is the program around it: the C declarations, the owned CEA objects, the
routines in the shape the library calls them, the worker threads of parallel runs,
and the error type with its messages.
