# ornaguide

A library for the data of the Orna codex (`playorna.com/codex`) and of the guide's
admin view (`orna.guide`): the entities of both sides, the conversions between them,
the translations of the codex, and the reading of their pages and forms.

- `src/` is the library, verified with Verus. The contract of each public function
  states its result as a spec function of its inputs (for the page readers, of what
  the selection of the page's parts gives), every field of the value it returns
  included. The page readers (`parse_item_html` and the other admin
  forms, `parse_html_codex_list`, `parse_html_codex_item`, `parse_html_codex_skill`,
  `parse_html_codex_follower`, their translations, `parse_post_error_html`) take the
  text of the page: `kuchiki` parses it and
  selects its parts behind two trusted calls (`select_nodes`, `select_contexts` in
  `src/utils/dom.rs`), whose outcome is named (`html_select`,
  `html_select_context`); turning those parts into the values read, and reading them,
  is verified.
- `app/` holds what surrounds it: HTTP with `reqwest`,
  JSON files with `serde`, and the configuration read from the environment.
- `tests/` exercises the library on concrete values.

The admin forms of items and skills hold a few decimal numbers (bonuses, M1 and M2);
the library keeps those fields as the text of the form, and `app/admin.rs` holds the
copies of `AdminItem` and `AdminSkill` that read them as numbers.
