//! The usage text of the `run` command.

use vstd::prelude::*;

verus! {

/// The usage text, as it is shown with every usage error and handed to the
/// parser of the remaining arguments.
pub const USAGE: &'static str = "Usage:
  algo run [options] <algorithm>

  <algorithm> syntax: USERNAME/ALGONAME[/VERSION]
  Recommend specifying a version since algorithm costs can change between minor versions.

  Input Data Options:
    There are option variants for specifying the type and source of input data.
    If <file> is '-', then input data will be read from STDIN.

    Auto-Detect Data:
      -d, --data <data>             If the data parses as JSON, assume JSON, else if the data
                                      is valid UTF-8, assume text, else assume binary
      -D, --data-file <file>        Same as --data, but the input data is read from a file

    JSON Data:
      -j, --json <data>             Algorithm input data as JSON (application/json)
      -J, --json-file <file>        Same as --json, but the input data is read from a file

    Text Data:
      -t, --text <data>             Algorithm input data as text (text/plain)
      -T, --text-file <file>        Same as --text, but the input data is read from a file

    Binary Data:
      -b, --binary <data>           Algorithm input data as binary (application/octet-stream)
      -B, --binary-file <file>      Same as --data, but the input data is read from a file


  Output Options:
    By default, only the algorithm result is printed to STDOUT while additional notices may be
    printed to STDERR.

    --debug                         Print algorithm's STDOUT (author-only)
    --response-body                 Print HTTP response body (replaces result)
    --response                      Print full HTTP response including headers (replaces result)
    -s, --silence                   Suppress any output not explicitly requested (except result)
    -m, --meta                      Print human-readable selection of metadata (e.g. duration)
    -o, --output <file>             Print result to a file, implies --meta


  Other Options:
    --timeout <seconds>             Sets algorithm timeout

  Examples:
    algo kenny/factor/0.1.0 -t '79'                   Run algorithm with specified data input
    algo anowell/Dijkstra -J routes.json              Run algorithm with file input
    algo anowell/Dijkstra -J - < routes.json          Same as above but using STDIN
    algo opencv/SmartThumbnail -B in.png -o out.png   Runs algorithm with binary data input
";

/// The usage text.
pub fn get_usage() -> (usage: &'static str)
    ensures
        usage@ == USAGE@,
{
    USAGE
}

} // verus!
