# trace_stream_rs

Log collection services: a shipper watches local log files and uploads
what is appended to them, and a trace server stores the uploads in daily
files per project and server, compressing the file of the previous day.

`src/` is the verified library (Verus):

- `common`: business codes and their reasons, business errors, the
  response envelope, calendar dates (`YYYY-MM-DD` days, previous days, day
  differences), log line formatting and rendering, and string helpers.
- `libs_common`: MD5 and bcrypt password hashing, the choice of the host's
  IPv4 address among its interfaces, and the uploader's log body.
- `ntex_auth`: the login decision and the bearer-token filter decision.
- `trace_server`: settings, and the plans for storing a log body (which
  file, which lines, what text, which old file to retire and how).
- `trace_stream`: settings (Kafka, trace server endpoints), log monitors,
  and the upload request and re-login decision.
- `log_monitor`: monitors of operation logs.
- `log_upload`: the text of the host's public address, from the outcome of
  its lookup.

`app/` holds the programs around the library: HTTP servers and clients,
the file system, log watching, configuration loading and serialization.
