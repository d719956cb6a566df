# serviceworkerjob

The job queue of a browser's service workers, verified with Verus.

A page that registers or updates a service worker asks for a job. Jobs wait in one queue
per scope; the front job of a scope runs, and jobs that ask for the same as a pending one
are settled along with it. The library decides what is done; the script thread and the
network, which do it, are outside.

- `src/servo_url.rs`: URLs and origins, parsed by the `url` crate.
- `src/headers.rs`: header maps and media types, kept and read by the `hyper` crate.
- `src/text.rs`: runs of characters, for telling what those two parsers can take.
- `src/job.rs`, `src/handler.rs`: jobs, and messages to the script thread.
- `src/queue.rs`: scheduling, running and finishing jobs.
- `src/registration.rs`, `src/update.rs`: what registering and updating come to.
- `src/fetch.rs`, `src/response.rs`: the request for a script, and the verdict on its
  response.
- `src/queue_laws.rs`, `src/laws.rs`: what holds of all of this, as proof functions.
- `app/`: the script thread's and the network's side.
