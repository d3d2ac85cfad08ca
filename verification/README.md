# wasapi

Verified logic of a client for the Windows Audio Session API (WASAPI).

The library in `src/` decides: which system calls an operation makes, with which arguments and
in which order, and what the replies mean. Every function has a contract that Verus proves. The
audio interfaces of the system are type parameters, so the library runs, and is tested, on any
machine.

* `format`: wave formats, their conversion and their debug output
* `device`: choosing, listing and finding devices
* `client`: format queries, initialization, free buffer space, services, event handles
* `render`, `capture`: writing to and reading from devices
* `session`: session states, notifications and their callbacks
* `text`, `guid`, `error`: texts, identifiers and errors

An operation with several system calls is split into steps. Each step names the next call, and
the reply to that call leads to the step after it.

The crate in `app/` is the API for Windows programs. It makes the calls and hands the replies to
the library.

Trusted without proof are the decoding of wide strings by `widestring` (`text::decode_wide`) and
the notation of identifiers by `windows` (`guid::guid_text`).
