# deployer

A CI/CD and hosting platform: it clones a branch of a Git repository, detects
what kind of project it holds, builds it into a Docker image, runs it in a
container and publishes it at `http://<repo>-<branch>.localhost` through an
Nginx reverse proxy.

- `src/` is the verified library (Verus): the deployment pipeline as a state
  machine (`deploy_flow`), project detection (`project`), the container port
  pool (`port_pool`) and the database port rule (`port_assignment`), site names
  and the Nginx server block (`site`), command lines (`commands`), GitHub API
  requests (`github`), job statuses (`job_status`), settings (`settings`), the
  API's requests and replies (`requests`, `replies`), the account service's
  decisions (`accounts`) and the start of a WebSocket session (`ws`).
- `app/` is the server: axum routes, PostgreSQL through sqlx, Docker through
  shiplift and the docker CLI, GitHub through reqwest and oauth2.
- `tests/` runs the library on concrete values.
