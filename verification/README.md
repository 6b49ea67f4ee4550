# charybdis_core

The logic of an automatic schema migration tool and of the query generation of a ScyllaDB
ORM, written in Verus and proved against its contracts.

- `src/` is the verified library:
  - `schema`, `data`, `keys`: schema objects and the comparison of a code definition with the
    database definition (new, removed and retyped columns, index changes, key changes);
  - `plan`: the actions a migration takes for one object, in order, and the changes it refuses;
  - `cql`, `options`, `clause`, `text`: the CQL statements that carry out each action;
  - `migration`, `builder`, `args`, `modelize`: a whole-keyspace migration and its options,
    and the model files written for UDTs;
  - `fields`, `queries`, `native`, `rules`, `model_impls`, `model_rules`: the query strings,
    function names and macro rules generated for a model;
  - `laws`: properties that span several functions.
- `tests/` runs the library on concrete schemas and models.
- `app/` is the command-line front end: argument parsing, the database session, reading the
  database schema, printing and executing the planned statements, and the token generation
  of the model macros (`expand <model file>` prints it).
