# fyc

An App Container executor: it unpacks the images given on the command line,
mounts their volumes, runs each image's app inside its own root filesystem as
one pod, and serves the pod's metadata to the apps over HTTP.

The library under `src/` holds the logic, each function with a proved contract:

- `aci`: image manifests; the commands that launch an app and its `pre-start`
  and `post-stop` handlers; the plan of the mounts an app needs.
- `pod`: the pod manifest and its apps and volumes.
- `metadata`: the metadata service: registered pods, and the answer to each
  request (`handle`), with the laws of the service in `metadata::laws`.
- `volumes`: the set of volumes a pod has made.
- `layout`: the pod's directories and the order in which an image's
  processes run.
- `keyed`, `text`, `util`: string-keyed maps, text helpers (splitting,
  number parsing, UUID text) and list helpers.

`app/` is the program around it: reading files and archives, JSON, system
calls (`mount`, `chroot`), processes, threads and the HTTP server.
