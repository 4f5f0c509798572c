# rudder

The decisions of two Rudder tools, written and proved in Verus.

`rudderc` has to find out where its input comes from, where its output goes and which format it
writes. The command line, the configuration file and the files that exist all have a say.
`session.rs` takes these decisions one step at a time: a `Step` says what has to be looked at
outside, a `Reply` says what was found. `world.rs` states what the steps come to as a whole, and
proves that a session ends there in every world.

The relay receives reports, identifies the run they are about, and gives them to a database or to
another relay. `reporting.rs` and `insertion.rs` take these decisions in the same way, and
`relay.rs` states and proves what they come to.

| module | content |
| --- | --- |
| `path`, `text`, `digest` | Unix paths, UTF-8, queue identifiers |
| `options`, `config`, `formats`, `error`, `context` | the data of `rudderc` |
| `input`, `output` | the searches for the input and for the output |
| `session`, `world` | the making of an `IOContext`, and its laws |
| `reporting`, `insertion` | the treatment of reports |
| `relay` | its laws |

`app/` is ordinary Rust around the library: argument and configuration parsing, the file system,
and the jobs of the relay.
