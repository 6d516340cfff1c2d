# anydoc_pdf

PDF inspection and Markdown extraction built on
[pdf-inspector](https://crates.io/crates/pdf-inspector), verified with Verus.

- `src/` is the verified library:
  - `signature` — the `%PDF-` signature check;
  - `inspector` — the calls into pdf-inspector (trusted wrappers), what its
    source shows of every result, and the plain values results become;
  - `pdf` — `inspect_pdf_bytes`, `to_markdown` (Markdown plus the warnings
    to log), error mapping and the inspection types, with their contracts
    and laws;
  - `text` — whitespace classification and base-ten rendering;
  - `error` — `ConvertError` and its codes;
  - `format`, `node`, `python` — the format vocabulary and the values the
    Node.js and Python bindings expose, with verified conversions.
- `app/` holds file access, logging and the binding layers (napi, PyO3,
  serde), which Verus does not see.
- `tests/` runs the library on concrete values, including small PDFs
  written out in the tests.
