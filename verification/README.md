# ns-inscriber

The verified core of `ns-inscriber`, a command line that keeps keys under a key encryption key,
derives and uses them, and inscribes names on the Bitcoin chain.

A run of the program is a `Session`. It holds the settings and where the command stands. It asks
for one thing at a time (a prompt, a file, a hash, a signature, a call to the node), takes the
answer as a plain value, and decides what comes next. `app/` is the program around it: it parses
the command line, reads the settings and does what the session asks for.

| Module | What it holds |
| --- | --- |
| `cli` | the command line |
| `session` | settings, the start of each command, and the step after an answer |
| `state`, `wire`, `form` | where a command stands; requests, answers and outcomes; values at run time and as mathematical values |
| `keystore` | opening the key encryption key; reading and saving keys under it |
| `seeds`, `derivation` | making, importing and exporting seeds; deriving keys |
| `listing` | listing the keys |
| `messages` | signing and verifying messages |
| `node` | making the client of the Bitcoin node and pinging it |
| `spending` | choosing an output, sending satoshis |
| `names` | previewing and inscribing names |
| `chain`, `cose`, `hexadecimal` | what is read of Bitcoin, of COSE and of hexadecimal text |
| `text` | numerals, white space and lists |
| `progress`, `run`, `files`, `protection`, `reach`, `vetting`, `roundtrip` | what holds of every run |

Every step is stated as a function on mathematical values (`session::started`, `session::next`),
and the executable code is proved to compute it. On top of that it is proved, among other things,
that every run ends, that no seed is overwritten, that every key is written under the opened key
encryption key, that the node is pinged once before it is used, that only names that were checked,
signed by their author and validated are inscribed, and that what is saved, exported or signed is
read back.

Calls into `bitcoin`, `coset` and `hex` stand behind small functions in `chain`, `cose` and
`hexadecimal`, whose contracts are taken from those crates. `anyhow` hands out their errors with the
causes.
