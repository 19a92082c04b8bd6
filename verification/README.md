# name-to-handle-at

The Linux system calls `name_to_handle_at(2)` and `open_by_handle_at(2)`, with the decisions
about them verified by Verus.

A file handle names a file independently of its path: it can be obtained for a file, kept,
and used later to open that file again, even if it was renamed or moved within its
filesystem.

- `src/` is the verified library. It says which call to make next, how the buffer for it is
  laid out, and what follows from the kernel's reply. `Lookup` drives `name_to_handle_at`,
  `Opening` drives `open_by_handle_at`, and `laws` states what holds of whole conversations
  with the kernel.
- `app/` makes the calls. Its two functions `name_to_handle_at` and `open_by_handle_at` own
  the memory that the kernel writes to, read from it what the kernel left there (a mount ID
  of 32 or of 64 bits, as the request says), and do as the library says.
- `tests/` plays the kernel and checks concrete conversations.

Opening a file by its handle requires the `CAP_DAC_READ_SEARCH` capability.
