# helmule

A tool that mirrors helm charts: it pulls charts from helm or git
repositories, copies extensions into them, applies patches (regular
expressions, git patches, yq edits, custom commands) and pushes them to git
repositories or hands them to custom commands. Fields of mirrors are
handlebars templates over the pulled chart (`name`, `version`, `path`,
`repo_url`, `vars.*`, `date`, `time`). Templates with partials or
decorators (`{{> p}}`, `{{#> p}}`, `{{#*inline ..}}`), or with more than 32
block or subexpression openings, are refused before rendering.

Layout:

- `src/` is the verified library. It holds the configuration model and
  decides what is done: which repository and mirrors a chart uses, how
  variables merge, how included files extend the configuration and how
  their relative paths are rebased, what a patch comes down to, which
  commands a pull or a push runs and in what order. Each public function
  states its result in its contract; laws that relate several functions are
  proof functions.
- `app/` reads the configuration files, runs the commands and touches the
  file system, carrying out what the library plans.
- `tests/` runs the library on concrete values.
