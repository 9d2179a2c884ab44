# netblame

Is it really the network's fault? netblame diagnoses a target stage by stage
(environment, DNS, TCP, TLS, HTTP, QUIC, path quality, path trace), and names the
most likely culprit, with its grounds, in English or Japanese.

The library under `src/` is written in Verus. It decides and computes, and does no
input or output; every function states in its contract what it returns, and Verus
proves it.

| Module | What it holds |
| --- | --- |
| `target` | the target on the command line |
| `report` | the results of all stages |
| `probe` | the decisions of each stage: what to ask, and what the answers mean |
| `diagnose`, `stages` | the order of the stages, the deadline, the exit code |
| `verdict` | the rules that name the culprit, and what holds of every verdict |
| `i18n`, `show` | the messages, and the lines that are printed |
| `watch` | repeated diagnosis |
| `share` | report sharing: the client, and the decisions of the server |
| `addr`, `measure`, `clock`, `deadline`, `order`, `text` | the parts they are made of |

Proof functions named `law_..` state what the functions promise together: that the
first rule that applies decides, that a diagnosis ends, that a rate limit holds in
every window, and so on.

`app/` is the program around the library: arguments, sockets, files, terminal
output, JSON, and the share server. Called as `netblame-share` it is that server.
