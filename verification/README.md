# Cortex-M executive, verified core

A small preemptive executive for a Cortex-M0+ microcontroller. The library in
`src/` holds the scheduling decisions, the message queue, the stack-frame
layout and the register computations; every function there is proved against
its contract with Verus. `app/` is the firmware around it: start-up code,
exception handlers that carry out what the library decides, register access,
the register-level context switch and the task trampoline that calls task
bodies.

Library modules:

- `intercom` – a fixed-capacity message queue that drops the oldest message
  when full, and the results handed to receivers.
- `task` – task states, roles, cycle times, control blocks and task handles.
- `stack` – the task stacks and the layout of a freshly prepared exception
  frame.
- `application` – the scheduler: cyclic releases, missed-release accounting,
  timer deadlines and the choice of the next task on a context switch.
- `isr` – what the tick, supervisor-call and context-switch handlers decide.
- `os` – the earlier single-stack executive: task table, frame setup and
  re-arming, and its context-switch decisions.
- `peripherals`, `cortex` – register models of the clock, oscillator, timer,
  flash, pin and system-control blocks, with the bit-field updates and
  register encodings the firmware writes.

The hardware itself is reached only from `app/`: it reads registers into the
library's models, lets the library compute the new contents, and writes them
back.
