use futures::{future, Async, Future, Poll, Stream};
use hyper::body::Body;
use hyper::client::connect::{Connect, Connected, Destination};
use hyper::server::conn::Http;
use hyper::service::{service_fn, NewService, Service};
use hyper::{Client, Request, Response, Uri};
use hyper_stub::{ConnectPoll, Connector, ConnectorConnectFuture, FactoryPoll, Phase};
use memsocket::UnboundedSocket;
use std::error::Error;
use std::fmt::{self, Display, Formatter};
use tokio::runtime::current_thread::Runtime;

struct StubConnector<N>(Connector<N, Http>);

struct StubConnectFuture<F>(ConnectorConnectFuture<F, Http>);

impl<ServiceFuture, S> Future for StubConnectFuture<ServiceFuture>
where
    ServiceFuture: Future<Item = S>,
    ServiceFuture::Error: Error + Send + Sync + 'static,
    S: Service<ReqBody = Body, ResBody = Body> + Send + 'static,
    S::Error: Error + Send + Sync + 'static,
    S::Future: Send + 'static,
{
    type Item = (UnboundedSocket, Connected);
    type Error = ServiceFuture::Error;

    fn poll(&mut self) -> Poll<Self::Item, Self::Error> {
        assert!(self.0.phase == Phase::Pending);
        let polled = match self.0.service_future.poll() {
            Ok(Async::NotReady) => FactoryPoll::NotReady,
            Ok(Async::Ready(service)) => FactoryPoll::Ready(service),
            Err(err) => FactoryPoll::Failed(err),
        };
        match self.0.advance(polled) {
            ConnectPoll::NotReady => Ok(Async::NotReady),
            ConnectPoll::Failed(err) => Err(err),
            ConnectPoll::Wired(wiring) => {
                tokio::spawn(
                    wiring
                        .server
                        .serve_connection(wiring.server_io, wiring.service)
                        .map_err(|err| panic!("{:?}", err)),
                );
                Ok(Async::Ready((wiring.client_io, wiring.connected)))
            }
        }
    }
}

impl<N, S> Connect for StubConnector<N>
where
    N: NewService<ReqBody = Body, ResBody = Body, Service = S> + Send + Sync,
    N::Future: Send + 'static,
    N::InitError: Error + Send + Sync + 'static,
    S: Service<ReqBody = Body, ResBody = Body> + Send + 'static,
    S::Error: Error + Send + Sync + 'static,
    S::Future: Send + 'static,
{
    type Transport = UnboundedSocket;
    type Error = N::InitError;
    type Future = StubConnectFuture<N::Future>;

    fn connect(&self, _: Destination) -> Self::Future {
        StubConnectFuture(self.0.connect(self.0.new_service.new_service()))
    }
}

fn stub_client<N>(new_service: N) -> Client<StubConnector<N>>
where
    StubConnector<N>: Connect + 'static,
{
    Client::builder()
        .set_host(true)
        .build(StubConnector(Connector::new(new_service, Http::new())))
}

fn body_of<C: Connect + 'static>(client: &Client<C>, request: Request<Body>) -> String {
    let bytes = Runtime::new()
        .unwrap()
        .block_on(
            client
                .request(request)
                .and_then(|res| res.into_body().concat2())
                .map_err(|err| panic!("{:?}", err)),
        )
        .unwrap();
    String::from_utf8(bytes.to_vec()).unwrap()
}

#[test]
fn test_ok() {
    let client = stub_client(|| {
        future::ok::<_, std::io::Error>(service_fn(|req: Request<Body>| {
            let query = req.uri().query().unwrap().to_string();
            future::ok::<_, std::io::Error>(Response::new(Body::from(query)))
        }))
    });
    let url: Uri = "https://example.com?foo=bar".parse().unwrap();
    let request = Request::get(url).body(Body::empty()).unwrap();
    assert_eq!(body_of(&client, request), "foo=bar");
}

#[test]
fn echo_handler_returns_the_request_body() {
    let client = stub_client(|| {
        future::ok::<_, std::io::Error>(service_fn(|req: Request<Body>| {
            future::ok::<_, std::io::Error>(Response::new(req.into_body()))
        }))
    });
    let url: Uri = "http://example.com".parse().unwrap();
    let request = Request::post(url).body(Body::from("hello world")).unwrap();
    assert_eq!(body_of(&client, request), "hello world");
}

#[test]
fn requests_in_turn_each_get_their_own_answer() {
    let client = stub_client(|| {
        future::ok::<_, std::io::Error>(service_fn(|req: Request<Body>| {
            let path = req.uri().path().to_string();
            future::ok::<_, std::io::Error>(Response::new(Body::from(path)))
        }))
    });
    for path in ["/one", "/two", "/three"].iter() {
        let url: Uri = format!("http://example.com{}", path).parse().unwrap();
        let request = Request::get(url).body(Body::empty()).unwrap();
        assert_eq!(body_of(&client, request), *path);
    }
}

#[derive(Debug)]
struct NewServiceError;

impl Display for NewServiceError {
    fn fmt(&self, fmt: &mut Formatter) -> fmt::Result {
        fmt.write_str("correct error for test")
    }
}

impl Error for NewServiceError {
    fn description(&self) -> &str {
        "It broke"
    }
}

struct Unreachable;

impl Service for Unreachable {
    type ReqBody = Body;
    type ResBody = Body;
    type Error = std::io::Error;
    type Future = future::FutureResult<Response<Body>, std::io::Error>;

    fn call(&mut self, _: Request<Body>) -> Self::Future {
        unreachable!()
    }
}

#[test]
fn test_err() {
    let client = stub_client(|| future::err::<Unreachable, _>(NewServiceError));
    let url: Uri = "https://example.com".parse().unwrap();
    let outcome = Runtime::new().unwrap().block_on(client.get(url));
    match outcome {
        Ok(res) => panic!("didn't error: {:?}", res),
        Err(err) => assert!(err.to_string().contains("correct error for test")),
    }
}
