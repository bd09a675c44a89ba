# tika_build

Tooling around the native Tika library (a GraalVM native-image build):

- `src/` — the verified library (Verus). It decides which GraalVM JDK to
  fetch for a platform (`download`), checks a JDK home and words the advice
  shown when it is unusable (`graalvm`), sequences the installation of a JDK
  as a step machine (`install`), names the build artifacts to copy, the
  `install_name_tool` call and the Cargo link directives (`native`), and
  decides how extracted text is streamed (`stream`).
- `app/` — the program that performs the file, network and process work:
  by default it installs GraalVM and builds the library; `link-directives`
  prints the Cargo directives; `extract <file>` and `extract-to-string <file>`
  extract a document's text with extractous.
- `tests/` — tests of the library on concrete values.
