# virtio_block

A virtio block device as verified state machines.

`src/` is the library, written in Verus. It holds the decisions of the device and
performs no input or output: it takes what the host reports, and returns what the
host has to do next. Its modules, from the bottom up:

- `virtio`, `error`, `metrics`, `events`: constants, errors, counters, event
  numbers;
- `config`, `features`, `config_space`, `disk`: what the device is made of and
  what the driver sees of it;
- `queue`, `completion`, `queue_run`: serving a queue step by step, and what holds
  of a whole pass;
- `worker`, `threaded`, `threaded_run`, `handle`: serving a queue in place or on a
  thread, and the exchange of messages between the device and the thread;
- `device`, `device_ops`, `lifecycle`, `transport`, `persist`: the device itself,
  from its configuration over activation and reset to saving and restoring;
- `worker_pool`: a pool of threads that devices are spread over.

Public proof functions whose names begin with `law_` state what holds of several
functions together.

`app/` is ordinary Rust around the library: files, events, channels and threads.
The queue in guest memory, the requests in it, the rate limiter, the file engine
and the interrupt line belong to the virtual machine monitor and are traits there.
