# tor_v3_vanity

A search for version 3 onion addresses that start with chosen characters. Every device tries
ed25519 keys, keeps those whose address starts with one of the prefixes, and the host derives each
key again before it writes it to a file.

The library under `src/` is verified with Verus.

- `modular`, `ring`, `primes`, `powers`, `prime25519`, `fp`: the integers modulo `2^255 - 19`, and a
  proof that this number is prime.
- `edwards`, `order`: the group of the curve: completeness and associativity of the addition law,
  the base point and its order.
- `field`, `point`, `bytes`: the arithmetic of the kernels, from limbs to encoded points.
- `kernel`: the work of one thread, for fresh seeds (`render`) and for a walk along the base point
  (`render_incremental`).
- `text`, `alphabet`, `onion`, `prefix`: addresses, and the bits of a prefix.
- `keys`, `gate`: the keys that are written, and why what a kernel hands back has the address that
  was looked for.
- `session`, `tuning`, `report`: what a run counts, when it is over, how launches are sized, and
  what is shown meanwhile.

Calls into other crates stand in small functions marked `external_body`; the comment above each
says what is taken from that crate.

`app/` is the program around the library: arguments, files, the terminal, and the CUDA devices.
