# noak

A reader for Java class files, verified with Verus.

The reader takes a class file apart lazily: `reader::Class::new` checks the header, reads the
constant pool and finds the boundaries of the interfaces, fields, methods and attributes; their
contents are read when they are asked for. Every reading function states, in its contract, what
it gives back and where it leaves the decoder, over spec functions on the input bytes.

Layout of `src/`:

- `mutf8.rs`: modified UTF-8 strings (`MStr`, `MString`), their validity, characters and encoding.
- `descriptor.rs`: field and method descriptors.
- `error.rs`: decode errors, encode errors and their contexts.
- `header.rs`: class file versions and access flags.
- `text.rs`: building the text that describes values.
- `reader/decoding.rs`: the decoder over the input and the `Decode`/`DecodeInto` traits.
- `reader/cpool.rs`, `reader/cpool/value.rs`: the constant pool and the values its items stand for.
- `reader/class.rs`, `reader/items.rs`, `reader/interfaces.rs`: the class file as a whole, its fields and methods.
- `reader/attributes.rs` and `reader/attributes/`: attributes, code, instructions, stack maps,
  local variables and annotations.

The laws of the library are public proof functions beside the code they speak of, such as
`mutf8::lemma_chars_of_encode`, `descriptor::lemma_type_text_round_trip` and
`reader::cpool::lemma_read_pool_pads_wide_items`.
