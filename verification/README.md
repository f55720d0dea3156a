# acta

Acta creates lightweight planning records for non-trivial software changes: a
Git Flow topic branch, a linked worktree under `.worktrees/<type>/<name>`, and
planning files under `docs/agents/plans/<type>/<name>` inside it.

Layout:

- `src/` is the verified library. It holds the rules of the tool (which names
  are accepted, how `<type>/<name>` is split, how `git` output and
  `git worktree list --porcelain` are read, where worktrees and plans live, how
  clarifications are numbered, how the exclusion block is added, which
  convention templates `init` copies) and each
  command as a state machine: given the reply to its last request, it names
  the next request (run `git`, create a directory, write a file, ask the
  user, print) until it finishes with a result.
- `app/` is the executable: it reads the command line with clap, carries out
  the requests of the session (processes, files, the terminal menu through
  dialoguer, clipboard helpers) and hands the replies back.
- `tests/` runs the library on concrete inputs and on scripted sessions.
