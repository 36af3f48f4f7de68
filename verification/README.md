# ustats

A menu-bar monitor for Anthropic API rate-limit usage. The verified library
(`src/`, checked with Verus) holds the logic:

- `config`: settings, their defaults, the priority order of API-key sources and
  the edits made by the commands (widget coordinates kept as `f64` bit patterns);
- `credentials`: extraction of the OAuth access token from the keychain output;
- `headers`: first value of a response header, as visible-ASCII text;
- `numbers`: the `i64` and `f64` literal syntaxes of the standard library, over bytes;
- `usage`: usage buckets read from rate-limit headers, and whether a response is an error;
- `tray`: the tray menu texts;
- `text`: UTF-8 decoding and decimal rendering.

`app/` is the desktop shell (Tauri commands, HTTP request, settings file,
keychain query, floating-point presentation); `tests/` exercises the library
against the real outside crates.
