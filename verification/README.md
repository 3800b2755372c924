# scholar_scraper

A Google Scholar profile scraper whose core is verified with Verus.

- `src/` is the verified library: the scholar and publication records
  (`model`), the extraction of a profile's name, affiliation, citation metrics
  and publication rows from fetched HTML (`extract`, with the HTML selection done
  by the `scraper` crate in `html`), the reading of the JSON answer that carries
  a page of publications (`json`), request addresses, status checks and the
  paging through publications (`fetch`), the choice of the author list (`input`),
  trimming and decimal text (`text`), and the CSV export format (`export`).
- `app/` is the program around it: reading the author list file, the concurrent
  HTTP requests, logging, and writing the export file.
- `tests/` runs the library on concrete inputs.
