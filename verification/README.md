# e_commerce

A small catalogue service (categories, products, users) with a verified core.

- `src/` is the library, verified with Verus: paging and sorting of product
  lists, the text of the product queries, authorization rules, token headers,
  error responses, hypermedia links, request-body rules, settings, and every
  service operation as a state machine that asks for database statements and
  outside calls and decides on their answers.
- `app/` is the HTTP server around it (actix-web, diesel on PostgreSQL,
  JSON web tokens, the currency-rate service). It performs what the
  operations ask for and turns values into JSON.
- `tests/` exercises the library on concrete values.
