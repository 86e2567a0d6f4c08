# deltav_bot

The Discord bot of the Delta-V content review, with its logic verified by Verus.

The bot watches the pull requests of a repository on GitHub. It opens a thread in the intake forum
for each of them, lets team members triage it with buttons, moves it to a public or private review,
reminds the thread of every day that passes, keeps issues and votes to override them, and writes the
outcome back to GitHub.

## Layout

- `src/` is the library. Whatever takes a conversation with Discord, GitHub or the database is a
  *run* (`discord/action.rs`): a value that is handed the answer to its last action and gives back
  the next one. What a run does on which answer is its contract; laws about whole runs, such as that
  nothing is done without permission, are the public proof functions named `law_*`.
- `app/` is the program around it. It performs the actions, with poise, sqlx and octocrab, and
  hands back the answers.
- `tests/` drives the library with given answers.

| Module | What it holds |
| --- | --- |
| `text` | characters, trimming, splitting, decimal numbers |
| `util`, `clock`, `github` | HTML comments, points in time, what happens on GitHub |
| `discord::action` | actions, answers and runs |
| `discord::permissions` | permission flags, who may do what, the commands about them |
| `discord::pr_feeds` | feeds of labelled pull requests |
| `discord::content_review::data` | discussions, forums, settings, issues and votes |
| `discord::content_review` | GitHub events, buttons, reminders, triage, raised issues |
