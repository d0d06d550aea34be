# realworld

The domain model of a Conduit ("RealWorld") client, written in Verus.

- `src/` is the verified library: the entities (users, viewers, sessions,
  authors, articles, comments, tags, page numbers, paginated lists), the
  routes and their paths, the addresses and headers of the requests to the
  Conduit server, what becomes of the server's answers and errors, and the
  state machines of the pages (article, editor, home, login, profile,
  register, settings). Each page's `update` takes a message, changes the
  page's state and returns the commands that are to be carried out.
- `app/` runs the article, home and profile pages in the browser with seed:
  it keeps the viewer in local storage, sends the requests, reads the
  server's JSON, and carries out the commands that these pages return. The
  forms of the other pages and the page views are not part of it.
- `tests/` exercises the library on concrete values.
