# sahnemd

The service supervision logic of Sahnemd, the init system of the Sahne64
kernel, verified with Verus.

- `src/` is the verified library: services and their restart backoff
  (`service`), dependencies between services (`deps`), the supervisor loop as
  a state machine driven from outside (`supervisor`), the meaning of raw
  system call results (`syscalls`, `ipc`, `resource`) and decimal rendering
  for messages (`text`).
- `app/` is the program: the raw `syscall6` entry into the kernel, the
  wrappers that hand its results to the library, and the loop that performs
  the supervisor's actions.
- `tests/` runs the library on concrete services and messages.
