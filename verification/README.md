# dbms_upended

A small database management system whose core is verified with Verus.

- `src/ql/tokenizer`: the query language's tokens and the tokenizer. The lexical
  rules are spec functions over the characters of the input (`next_token`,
  `lex`); `Tokenizer::tokenize` and `Tokenizer::get_next_token` are proved to
  follow them, and errors carry the line and column of the bad token, counted
  in characters. Lemmas state that tokenizing is reading one token after
  another, that each token's text agrees with its kind, and that whitespace
  around the input changes nothing.
- `src/ql/parser`: statements, expressions and the parser. `grammar.rs` states the
  grammar over sequences of tokens; each parsing method is proved to follow its rule,
  and `Parser::parse` gives exactly what `g_statements` says of the tokens.
- `src/dbms/format`: the `db_fmt` file that frames a database's schema (magic,
  version, XXH3 checksum, size, data), and the schema versions with their
  migrations. A framed schema is proved to read back as the data it holds.
- `src/dbms/bplus_tree`: the metadata file and the page layout of the on-disk
  B+ tree; a page is proved to read back as the node data written into it,
  and the metadata of a new tree to read back as a tree of one empty page.
  `BPlusTree::open_or_create` decides between opening and creating a tree.
- `src/dbms/mod.rs`: the set of database schemas of a DBMS root, and what to do
  when the root folder is missing (`root_step`).
- `app/`: the program around the library: command line, logging, the query
  prompt, file I/O, the bitcode and rkyv encodings, and evaluating operators on
  floating-point values.
