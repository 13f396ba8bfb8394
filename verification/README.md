# powhttp_sdk

The verified core of an SDK for powhttp extensions, written in Verus.

- `src/` is the library. It holds the data model (session entries, TLS and
  HTTP/2 events, proxy connection requests and results), the ordered,
  case-insensitive `Headers` list with its laws, the context-menu and overview
  trees, message tabs, the registry of handlers that the host calls back by
  id, the settling of registrations and removals once the host has answered,
  the dispatch decisions, how a run ends, and the hex and base64 codecs used
  on the wire. Every function there has a contract. Verus proves each of them except
  those of the trusted items, which it believes without proof; each has a
  doc comment that says what it claims:
  - wrappers (marked `#[verifier::external_body]`) around calls into std
    (`str::to_lowercase`, `<[T]>::iter_mut`, `String::from` on a `char`),
    `hex` (encode, decode) and `base64` (encode, decode);
  - `assume_specification`s of `Clone` for `ulid::Ulid` and `url::Url`;
  - declarations of the outside types `ulid::Ulid`, `url::Url`,
    `base64::DecodeError` and `std::slice::IterMut`.
- `tests/` runs the library on concrete values.
- `app/` is the runtime around it: JSON-RPC over standard input and output
  (tokio, tokio-jrpc), the async handler types, the serde forms of the
  values, and the `ExtensionHandle` that performs the requests and hands the
  answers to the library.

## Building menus

The trees in `src/` are generic over the handler they carry, so an item or
field is built with its handler value. In `app/`, `handlers::handler` turns
an async closure into such a value:

```rust
let item = ContextMenuItemSingle::new(
    "copy-url",
    "Copy URL",
    handler(|ctx, ext| async move { Ok(()) }),
);
```

Constructors take their text arguments as `&str`, `&mut str`, `String`,
`&String`, `Cow<str>`, `Box<str>` or `char`.
