# sps

Parsers for stability, performance and scalability logs of an application
server, with their contracts proved by Verus.

- `src/` is the verified library. `src/parser/` holds one module per log
  format (CPU monitoring, CPU and memory statistics, stuck threads, thread
  dumps, stuck queries, connection dumps), the tokenizer they are built on,
  and the SQL Server wait types (`wait_type_order.rs` proves that their list
  is sorted by name, so no two share one). Every parser is stated over the UTF-8 bytes
  of the text it reads: what it yields and what text it leaves are given by a
  spec function of the remaining text, and each parser proves that every call
  that yields something, an entry or an error, leaves less text: an error
  skips the header or lines it was found in, so reading a text entry after
  entry comes to an end. `src/store/` holds the table names of the log
  database and the pairing of stuck-thread records; `src/util.rs` the
  timestamps (through the `time` crate) and the order in which numbered log
  files are read.
- `app/` is the code around it: memory-mapped files, directory listings,
  the DuckDB store, and the JSON form of connection traces.
- `tests/` exercises the library on concrete log lines.

Floating-point columns (CPU usage, seconds, megabytes) are checked to be
floating-point literals and kept as text; `app/` turns them into numbers.
