# libavutil, verified core

`src/` is a Verus library: the integer value types libavutil exchanges
(picture types, channels, side-data kinds, rounding modes, IAMF and HDR
enumerations), the checks that guard libavutil's image, memory, print-buffer,
dictionary, hash and logging calls, and the computations that need no C code
— integer clipping, back-reference copies, plane copies, path and format
helpers, growable arrays and H.274 film-grain tables — each with a contract
Verus proves.

`app/` holds the calls into libavutil's C code itself, each guarded by the
checks of `src/`.

`tests/` exercises the library on concrete values.
