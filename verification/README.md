# ntex_task_list

A task list web service whose rules are verified with Verus.

- `src/` is the verified library:
  - `models.rs`: tasks, comments and the views of them that the service shows,
    including how the comments loaded for a page of tasks are shared out among
    those tasks;
  - `query.rs`: search requests: filters, the store conditions they stand
    for and which rows each condition keeps, sort orders and the window of
    rows a page shows;
  - `message.rs`: the reply bodies;
  - `response.rs`: for each request, the status and reply that follow from
    what the store answered;
  - `calendar.rs`: the date types carried through from chrono.
- `app/` is the service itself: routes (ntex), database work (diesel on
  PostgreSQL), JSON shapes (serde) and static files.
- `tests/` runs the library on concrete values.
