# gdyx_study

A client that logs a learner into the course platform at gdyx.bnu.edu.cn,
lists the rooms of the current year that are not yet complete, and works
through each room: it records participation, reads the course, enters the
room, finds the length of the room's video from the head of the MP4 file,
reports watching time, polls until the room is marked finished, and uploads
the learner's write-up.

The decisions are a library verified with Verus (`src/`):

- `time_utils` — calendar arithmetic for the start of the current year;
- `text` — decimal writing and reading of integers, string comparison;
- `json` — the model of a JSON reply, its reading from text (`serde_json`
  reads it), and the reads made of it;
- `api` — the requests, and how HTTP statuses and replies are judged;
- `session` — the login reply, the query window, the room list;
- `duration_probe` — the range requests that find an MP4's duration
  (the `mp4` crate reads the movie header);
- `room_flow` — the walk-through of one room, one step at a time.

`app/` is the program around it: configuration file, HTTP with `reqwest`,
request bodies written with `serde_json`, clocks and pauses, and printing.
