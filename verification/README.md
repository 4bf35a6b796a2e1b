# u2u-keyboard

Logic of a Raspberry Pi Pico firmware that bridges a UART line protocol
(`#<DST>:<TEXT>\n`, daisy-chained between nodes) to a USB HID keyboard,
verified with Verus.

- `src/` — the verified library:
  - `layout`, `layout_qwerty`, `layout_qwertz`: key tables for text bytes and
    escape sequences, with models of what a US and a German host type for each
    key, and proofs that every supported character is typed as itself;
  - `decimal`: DST parsing and formatting;
  - `latin9`: UTF-8 to Latin-9 conversion for the German layout;
  - `typing`: keystrokes for a text, with escapes and latched modifiers;
  - `assembler`: collecting received bytes into lines;
  - `protocol`: routing a line by DST and framing a line for the next node;
  - `node`: everything a node does in answer to a line;
  - `hid`: keyboard input reports.
- `tests/`: tests of the library.
- `app/`: the embassy firmware around the library (UART, USB, LED tasks).
  The host keyboard layout is chosen at build time with `U2U_LAYOUT=qwerty`
  (QWERTZ otherwise). It targets the RP2040 (`thumbv6m-none-eabi`) and is not built on a host.
