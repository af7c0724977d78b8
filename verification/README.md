# pyrefly

Parts of a type checker for Python, written in Rust and verified with Verus: what the fields of a
class are and how they are read, written and overridden; dataclasses and pydantic models; errors and
how they are rendered and recorded; stub files; quick fixes; and what a run of the command line does.

## Layout

* `src/` is the library. Every function states what it returns or changes, and Verus proves it.
  * Types and classes: `types`, `same`, `class_field`, `metadata`, `attribute`, `instance`, `subst`,
    `vars`.
  * Lookups and checks: `solver` holds `AnswersSolver`, whose methods stand in `attributes`,
    `reading`, `writing`, `override_check`, `overrides`, `multiple_inheritance`, `calculate`,
    `field_calc`, `field_value`, `special_type`, `members` and `access`. Questions about types go to
    an implementation of `LookupAnswer`; `nominal` has one that compares classes by their names.
  * Dataclasses: `dataclass`, `dataclass_fields`, `keywords`, `synthesis`, `replace_call`.
  * Pydantic: `pydantic`, `pydantic_args`, `pydantic_config`, `root_model`.
  * Stubs: `ast`, `stub`, `extract_types`, `extract_init`, `extract`, `extract_module`,
    `constructors`, `docstrings`, `words`, `prune`, `emit`.
  * Errors: `error`, `source`, `position`, `paths`, `snippet`, `rendering`, `renderer`, `showable`,
    `legacy`, `diagnostic`, `counts`, `order`.
  * Quick fixes: `edits`, `quick_fixes`, `marks`.
  * Runs: `settings`, `handles`, `plan`, `outcome`, `outputs`, `github`, `xml`, `timings`, `upsell`,
    `reports`, `suppression`.
  * Functions named `law_..` are what holds of the library as a whole.
* `app/` is the command line around it: arguments, files, the console, and the trait that an engine
  implements.
* `tests/` runs the library on examples.

Calls into other crates stand behind small functions that are marked as trusted, in `ordered`
(`starlark_map`), `github` (`percent-encoding`), `renderer` (`ruff_annotate_snippets`), `diagnostic`
(`lsp-types`) and `reports` (`blake3`). Of the standard library, `text` states what `String::push`
does.
