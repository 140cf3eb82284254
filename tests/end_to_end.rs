use futures_util::{SinkExt, StreamExt};
use http_body_util::Full;
use hyper::body::{Bytes, Incoming};
use hyper::service::service_fn;
use hyper::upgrade::Upgraded;
use hyper::{Request, Response};
use hyper_tungstenite::{is_upgrade_request, upgrade, HyperWebsocket, ProtocolError, UpgradeState};
use hyper_util::rt::TokioIo;
use tokio_tungstenite::WebSocketStream;
use tungstenite::protocol::Role;
use tungstenite::Message;

async fn open(
    mut websocket: HyperWebsocket,
) -> Result<WebSocketStream<TokioIo<Upgraded>>, ProtocolError> {
    let handoff = (&mut websocket.handle).await;
    let (io, config) = websocket.resolve(handoff)?;
    assert_eq!(websocket.state(), UpgradeState::Resolved);
    Ok(WebSocketStream::from_raw_socket(TokioIo::new(io), Role::Server, config).await)
}

async fn serve(
    mut request: Request<Incoming>,
) -> Result<Response<Full<Bytes>>, std::convert::Infallible> {
    assert!(is_upgrade_request(request.headers()));
    let (response, websocket) = upgrade(&mut request, None).unwrap();
    tokio::spawn(async move {
        let mut stream = open(websocket).await.unwrap();
        stream.send(Message::text("Hello!")).await.unwrap();
        let reply = stream.next().await.unwrap().unwrap();
        assert_eq!(reply, Message::text("Goodbye!"));
        stream.send(Message::Close(None)).await.unwrap();
    });
    Ok(response)
}

#[test]
fn hyper_end_to_end() {
    let runtime = tokio::runtime::Builder::new_current_thread().enable_all().build().unwrap();
    runtime.block_on(async {
        let (client_io, server_io) = tokio::io::duplex(64 * 1024);
        tokio::spawn(async move {
            hyper::server::conn::http1::Builder::new()
                .serve_connection(TokioIo::new(server_io), service_fn(serve))
                .with_upgrades()
                .await
                .unwrap();
        });

        let request = Request::builder()
            .uri("ws://localhost/foo")
            .header("Host", "localhost")
            .header("Connection", "Upgrade")
            .header("Upgrade", "websocket")
            .header("Sec-WebSocket-Version", "13")
            .header("Sec-WebSocket-Key", "x3JJHMbDL1EzLkh9GBhXDw==")
            .body(())
            .unwrap();
        let (mut stream, response) =
            tokio_tungstenite::client_async(request, client_io).await.unwrap();
        assert_eq!(response.status(), 101);
        assert_eq!(response.headers()["sec-websocket-accept"], "HSmrc0sMlYUkAGmm5OPpG2HaGWk=");

        let message = stream.next().await.unwrap().unwrap();
        assert_eq!(message, Message::text("Hello!"));
        stream.send(Message::text("Goodbye!")).await.unwrap();
        let closing = stream.next().await.unwrap().unwrap();
        assert_eq!(closing, Message::Close(None));
    });
}
