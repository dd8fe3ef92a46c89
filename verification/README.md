# mdbook-typst

An mdBook preprocessor that renders typst snippets of a book to SVG: fenced
code blocks whose information line is `typst`, and autolinks
`<typst://file.typ>` that name typst files of the book.

`src/` is the library, verified with Verus:

- `markdown`: finding the snippets of a chapter (with pulldown-cmark) and
  splicing the rendered output into it.
- `linker`: inline SVG, or SVG files in a subdirectory of the book source
  that the chapter links to.
- `world`: where the files that typst asks for are read from; nothing
  outside the book source is read.
- `download`, `license`, `package`: fetching missing typst packages (a custom
  program, or `wget` and `gunzip` driven step by step) and vetting the license
  in their `typst.toml`.
- `config`: the `[preprocessor.typst]` settings.
- `text`, `paths`: string and path helpers.

`app/` is the program around it: the command line, mdBook's JSON protocol,
the typst compiler, and all file, process and archive I/O.
