# seiran-common

The rules that a seiran server goes by where it meets the Fediverse and the AT
network, as a verified library.

- `src/` holds the library. Every function states what it returns, and Verus
  proves it. Proof functions whose names begin with `law_` state what holds
  across functions.
- `app/` is the ordinary Rust around it: the database, the network, the clock and
  the job queue. It asks the library what is to be done next, does it, and hands
  back the answer.
- `tests/` runs the library on concrete values.

## The modules

| module | what it decides |
| --- | --- |
| `text`, `spacing`, `decimal`, `json` | texts as sequences of characters, facts about their words and lines, numbers in decimal notation, JSON values |
| `outside` | calls into `url`, `regex`, `ammonia`, `html-escape`, `urlencoding`, `sha2`, `hex` and `chrono`, with what is claimed of each |
| `ap`, `ip_literal`, `local_domain`, `lang` | addresses of local actors, address literals, the server's own domain (a handle to the place where it is kept, so that clones agree), languages |
| `origin` | the origin of a web address, and whether two have the same |
| `mention` | mentions in a post, for the AT network and for the Fediverse |
| `link_target` | what a link or a name leads to |
| `cooldown` | how often a job is queued |
| `jobs` | the decisions of the background jobs |
| `jobs::inbound_activity_process` | activities that other servers deliver |

## Step functions

A job that alternates between asking the database or another server and deciding
is written as a function from the answers so far to the next step, such as
`note_flow::next_save_step`. Its contract says for all answers what the step is.
