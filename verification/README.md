# op-rbuilder: payload jobs

A node that builds blocks gets a fork choice update for each block it is to build. For each
one it starts a job: the job looks up its parent block, starts from what is already known of
the state, has a task build payloads until its deadline, and hands the latest payload out when
it is asked for. A newer update ends the job before it.

`src/` decides all of this and is verified with Verus:

- `time`: spans, the clock, job deadlines, the delay of a fork choice update
- `cancellation`: why jobs are cancelled, and the registry in which that stands
- `cache`: the reads that a commit leaves for the jobs on top of it
- `generator`: which parent to look up, and what a new job is and does to the last one
- `job`: the build task of a job, its payload, and when it ends
- `resolve`: waiting for a payload and handing it out
- `runtime_ext`: results of blocking tasks
- `hash`, `channel`, `shared`: what is taken from `alloy-primitives`, `tokio` and `std`

The laws that hold across these functions are the public proof functions whose names start
with `law_`.

`app/` runs the library inside a reth node: it looks headers up, starts tasks and timers, waits
on channels and converts between the values of the node and those of the library.
