# photo_archive

A small photo archive server whose request handling is verified with Verus.

- `src/` is the verified library. Paths are held as their components
  (`fspath`), byte ranges are read and resolved in `range`, directory
  listings are ordered in `listing`, client-supplied names are cleaned in
  `naming`, and each HTTP handler is a chain of steps (`photoset`,
  `photoset_api`, `photo_api`, `consolidated`, `server`): a step either
  answers the request or names one file-system operation together with the
  continuation that takes its result.
- `app/` is the Rocket server: argument parsing, the routes, and the
  file-system work that the steps ask for.
- `tests/` exercises the library on concrete requests.
