# exif_api

The request logic of a small HTTP service that reads, writes and deletes image
metadata by running ExifTool, written in Verus and verified.

- `src/metadata_type.rs`: the metadata groups a request can name, how a `type`
  parameter selects one, and the ExifTool options of each group.
- `src/command.rs`: the ExifTool command lines of the three operations.
- `src/json.rs`: JSON values as ExifTool reports them. Objects are the
  library's own lists of members with distinct names: `serde_json::Map` only
  holds `serde_json::Value`s, which verified code cannot look into, so the
  parsed document is converted once and the library fills its own objects.
- `src/normalize.rs`: how ExifTool's JSON output is read and its tags are
  cleaned for a reply.
- `src/form.rs`: what each field of an upload form contributes.
- `src/reply.rs`: refusals, their status and codes, and the download names.
- `src/text.rs`: text helpers and the standard library calls they rest on.
- `app/`: the actix-web server: multipart reading, temporary files, running
  ExifTool, and turning the library's results into JSON replies.
