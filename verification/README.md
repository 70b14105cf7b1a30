# forum

The request logic of a small web forum (boards, posts, replies, votes, sign-up
and login), written in Verus and proved against its contracts.

- `src/` is the verified library. Each request handler of the forum is a small
  plan: a state that holds what the database has answered so far, and a
  `next` step that either asks the next question (`Step::Ask`) or gives the
  answer to the client (`Step::Respond`). Its contract states the whole
  decision table (`plan`), and proof functions beside it state what the
  handlers guarantee: who may join, leave or delete a board, who may post or
  delete a post, that stored texts are escaped, that the login guard admits
  exactly the users it should, and that each question is asked at most once.
  Text handling (HTML escaping, decimal numbers as the standard library reads
  them, file extensions, "how long ago" messages) is verified too.
- `tests/` runs the library on concrete requests.
- `app/` is the web server around it: actix routes, the MySQL queries, the
  password hashing, the page templates and file uploads. It feeds each
  handler's plan the database's answers and sends the answers it gives.

Module layout: `src/handlers/{board,home,login,middleware,post,reply,user}.rs`
follow the forum's pages; `response.rs` holds the answers and the plan steps,
`numbers.rs` decimal reading and writing, `clock.rs` instants, elapsed time
as chrono counts it and chrono's date format, `utils.rs` HTML escaping. The app reads the
clock and hands the library the current instant.
