# ffb_structs

The rules of a football betting platform, written in Verus and proved
against their contracts: how a game's outcome is decided and its bets
validated, the steps of placing a bet, the lookups built for games, clubs,
leagues and seasons, the cache keys and what is cached, the translation
table, the request ban threshold, the API token rotation, and the web
layer's decisions (error pages, cookie approval, login and sign-up,
activation of users).

Layout:

- `src/` is the verified library. Each module states its data as views over
  `Seq`, `Map` and plain integers and proves its functions against them;
  the public proof functions (`lemma_*`) state the properties that hold
  across calls. The few calls into other crates (serde_json, regex,
  magic-crypt) stand behind small trusted wrappers whose doc comments say
  what is assumed of them.
- `tests/` runs the library on concrete values.
- `app/` is the server around it: database, cache, document store and
  search engine access, and the actix-web handlers, which hand plain values
  to the library and act on what it returns.
