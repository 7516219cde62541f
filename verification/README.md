# FaaSCell, verified

The core of FaaSCell, an orchestrator that runs Functions in sandboxes, together with the tools
around it. What decides and computes is a library that [Verus](https://github.com/verus-lang/verus)
proves correct; what reads, writes, waits and talks to other processes is a program around it.

## The library (`src/`)

| Module | What it holds |
| --- | --- |
| `worker` | The life of a worker and of its sandbox: a state machine (`machine`) proved against a model of it (`model`), and the laws that hold of every worker (`laws`); messages, handles, replies and errors |
| `runtime` | The runtimes of sandboxes: Firecracker (`fc`), firecracker-containerd (`fcctrd`) and two toys; networks and registration |
| `faasctl` | The commands to the orchestrator: registering Functions, seeding sandboxes, and the snapshots in its database |
| `tools` | Clients, warm-up, and samplers of the system |
| `cginfo` | Samples of a control group |
| `durations`, `metadata`, `metrics`, `status`, `paths`, `text` | What the others share |

Work that waits for the outside is a machine: it says what is to be done next (`action`) and is
told what came of it (`step`). Its contract says what follows from what, and its laws say what
holds however the outside behaves: that it ends, that nothing is left behind, that each thing is
done once.

Calls into other crates stand behind small functions marked `#[verifier::external_body]`, whose
contracts say what is believed of them.

## The program (`app/`)

It performs the actions of the machines: processes, sockets, files, the database. It also holds
the copies of the library's types that can be read from and written to JSON.
