# ec-slimloader

The decisions of a boot loader for devices with several image slots, verified with Verus.

The loader keeps a boot state in non volatile memory: a target slot, a backup slot, and how
the target has fared. Both the boot sequence and the check of an image are machines that say
what to do next and are told what came of it. Their contracts state the whole plan that such
a machine follows, and the laws are proved of those plans.

| Module | Content |
| --- | --- |
| `state` | slots, statuses and the boot state |
| `policy` | what an application may decide about the boot state |
| `boot`, `boot_laws` | the boot sequence, and what holds of every one |
| `rkh`, `rkh_laws` | root key hashes and the hash over their table |
| `image` | where an image keeps its root key hashes |
| `check`, `check_laws` | the check of an image, and what holds of every one |
| `application`, `application_laws` | how an application reads the boot state and what it asks for |
| `fuses` | what an application burns into the fuses |
| `plan`, `error` | optional actions, and why an image was not booted |

`app/` runs the machines on a board: it reads and writes the journal, starts images, and
accesses registers through the traits that a board implements.
