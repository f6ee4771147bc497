# crawlkit_extensions

Fetch backends for crawlkit: the Jina Reader, Firecrawl, and headless browsers
spoken to over the Chrome DevTools Protocol (a single endpoint, or a pool of
endpoints with random, round-robin or failover selection).

- `src/` is the verified library: client settings and builders, request
  planning (URLs, headers, CDP command text), the decisions taken on every
  answer (CDP replies and events, the steps of a page fetch, endpoint selection
  and health, retry budgets), with their contracts and laws proved by Verus.
- `app/` performs the I/O those decisions call for (HTTP, WebSocket, sleeping,
  environment variables) and implements `crawlkit_core::HttpClient`.
- `tests/` exercises the library on concrete values.
