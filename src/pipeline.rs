use vstd::prelude::*;
use crate::error::DecodeError;
use crate::layers::{
    link_result, link_stage, network_result, network_stage, transport_result, transport_stage,
};
use crate::netflow::{decode, decoded, FlowRecord, NetflowHeader};

verus! {

/// The conventional UDP port of Netflow exporters.
pub const DEFAULT_NETFLOW_PORT: u16 = 9500;

/// The stage of the pipeline at which a frame was rejected.
#[derive(Debug, Clone, Copy, PartialEq, Eq, Structural)]
pub enum Stage {
    Link,
    Network,
    Transport,
    Netflow,
}

/// A rejection, tagged with the stage that made it.
#[derive(Debug, Clone, Copy, PartialEq, Eq, Structural)]
pub struct PipelineError {
    pub stage: Stage,
    pub error: DecodeError,
}

impl Stage {
    /// The stage's name, for reports.
    pub fn name(&self) -> (r: &'static str)
        ensures
            r@ == stage_name(*self),
    {
        match self {
            Stage::Link => "link",
            Stage::Network => "network",
            Stage::Transport => "transport",
            Stage::Netflow => "netflow",
        }
    }
}

/// The name of each stage.
pub open spec fn stage_name(s: Stage) -> Seq<char> {
    match s {
        Stage::Link => "link"@,
        Stage::Network => "network"@,
        Stage::Transport => "transport"@,
        Stage::Netflow => "netflow"@,
    }
}

/// Tags the error of `r`, if any, with `stage`.
pub open spec fn at_stage<T>(r: Result<T, DecodeError>, stage: Stage) -> Result<T, PipelineError> {
    match r {
        Ok(v) => Ok(v),
        Err(e) => Err(PipelineError { stage, error: e }),
    }
}

/// One encapsulation layer that the pipeline peels off a frame.
#[derive(Debug, Clone, Copy, PartialEq, Eq, Structural)]
pub enum Layer {
    /// Ethernet, expecting IPv4 inside.
    Link,
    /// IPv4, expecting UDP inside.
    Network,
    /// UDP, expecting datagrams addressed to `port`.
    Transport { port: u16 },
}

/// The stage that reports the rejections of layer `l`.
pub open spec fn stage_of(l: Layer) -> Stage {
    match l {
        Layer::Link => Stage::Link,
        Layer::Network => Stage::Network,
        Layer::Transport { .. } => Stage::Transport,
    }
}

/// What layer `l` gives for the bytes `s`.
pub open spec fn layer_result(l: Layer, s: Seq<u8>) -> Result<Seq<u8>, DecodeError> {
    match l {
        Layer::Link => link_result(s),
        Layer::Network => network_result(s),
        Layer::Transport { port } => transport_result(s, port),
    }
}

/// What peeling the layers `ls`, outermost first, off the bytes `s` gives.
pub open spec fn peeled(ls: Seq<Layer>, s: Seq<u8>) -> Result<Seq<u8>, PipelineError>
    decreases ls.len(),
{
    if ls.len() == 0 {
        Ok(s)
    } else {
        match at_stage(layer_result(ls[0], s), stage_of(ls[0])) {
            Err(e) => Err(e),
            Ok(inner) => peeled(ls.drop_first(), inner),
        }
    }
}

/// What processing the bytes `s` through the layers `ls` and then the Netflow
/// decoder gives.
pub open spec fn processed_by(ls: Seq<Layer>, s: Seq<u8>) -> Result<
    (NetflowHeader, Seq<FlowRecord>),
    PipelineError,
> {
    match peeled(ls, s) {
        Err(e) => Err(e),
        Ok(nf) => at_stage(decoded(nf), Stage::Netflow),
    }
}

/// The layers of Netflow carried over Ethernet / IPv4 / UDP to `port`.
pub open spec fn standard_layers(port: u16) -> Seq<Layer> {
    seq![Layer::Link, Layer::Network, Layer::Transport { port }]
}

/// What processing the frame `s` gives when Netflow is expected on UDP port `port`.
pub open spec fn processed(s: Seq<u8>, port: u16) -> Result<
    (NetflowHeader, Seq<FlowRecord>),
    PipelineError,
> {
    match at_stage(link_result(s), Stage::Link) {
        Err(e) => Err(e),
        Ok(ip) => match at_stage(network_result(ip), Stage::Network) {
            Err(e) => Err(e),
            Ok(udp) => match at_stage(transport_result(udp, port), Stage::Transport) {
                Err(e) => Err(e),
                Ok(nf) => at_stage(decoded(nf), Stage::Netflow),
            },
        },
    }
}

/// Processing through the standard layers is the Ethernet / IPv4 / UDP chain.
pub proof fn lemma_standard_layers(s: Seq<u8>, port: u16)
    ensures
        processed_by(standard_layers(port), s) == processed(s, port),
{
    let ls = standard_layers(port);
    assert(ls.drop_first() =~= seq![Layer::Network, Layer::Transport { port }]);
    assert(ls.drop_first().drop_first() =~= seq![Layer::Transport { port }]);
    assert(ls.drop_first().drop_first().drop_first() =~= Seq::<Layer>::empty());
    reveal_with_fuel(peeled, 4);
}

impl Layer {
    /// The stage that reports this layer's rejections.
    pub fn stage(&self) -> (r: Stage)
        ensures
            r == stage_of(*self),
    {
        match self {
            Layer::Link => Stage::Link,
            Layer::Network => Stage::Network,
            Layer::Transport { .. } => Stage::Transport,
        }
    }

    /// Validates this layer of `bytes` and hands back what it carries.
    pub fn accept(&self, bytes: &[u8]) -> (r: Result<Vec<u8>, DecodeError>)
        ensures
            match r {
                Ok(v) => layer_result(*self, bytes@) == Ok::<Seq<u8>, DecodeError>(v@),
                Err(e) => layer_result(*self, bytes@) == Err::<Seq<u8>, DecodeError>(e),
            },
    {
        match self {
            Layer::Link => link_stage(bytes),
            Layer::Network => network_stage(bytes),
            Layer::Transport { port } => transport_stage(bytes, *port),
        }
    }
}

/// A chain of layers, outermost first, ending in the Netflow v5 decoder.
pub struct Pipeline {
    pub layers: Vec<Layer>,
}

impl Pipeline {
    /// The Ethernet / IPv4 / UDP pipeline for Netflow sent to UDP port `port`.
    pub fn new(port: u16) -> (r: Self)
        ensures
            r.layers@ == standard_layers(port),
    {
        let layers = vec![Layer::Link, Layer::Network, Layer::Transport { port }];
        assert(layers@ =~= standard_layers(port));
        Pipeline { layers }
    }

    /// A pipeline over the given layers, outermost first.
    pub fn with_layers(layers: Vec<Layer>) -> (r: Self)
        ensures
            r.layers@ == layers@,
    {
        Pipeline { layers }
    }

    /// Processes one captured frame into its Netflow header and records, in wire order.
    pub fn process_frame(&self, frame: &[u8]) -> (r: Result<
        (NetflowHeader, Vec<FlowRecord>),
        PipelineError,
    >)
        ensures
            match r {
                Ok((h, v)) => processed_by(self.layers@, frame@) == Ok::<
                    (NetflowHeader, Seq<FlowRecord>),
                    PipelineError,
                >((h, v@)),
                Err(e) => processed_by(self.layers@, frame@) == Err::<
                    (NetflowHeader, Seq<FlowRecord>),
                    PipelineError,
                >(e),
            },
    {
        let mut cur: Vec<u8> = vstd::slice::slice_to_vec(frame);
        let mut i: usize = 0;
        assert(self.layers@.skip(0) =~= self.layers@);
        assert(cur@ =~= frame@);
        while i < self.layers.len()
            invariant
                0 <= i <= self.layers@.len(),
                peeled(self.layers@, frame@) == peeled(self.layers@.skip(i as int), cur@),
            decreases self.layers@.len() - i,
        {
            let layer = self.layers[i];
            let ghost rest = self.layers@.skip(i as int);
            assert(rest[0] == layer);
            assert(rest.drop_first() =~= self.layers@.skip(i as int + 1));
            match layer.accept(cur.as_slice()) {
                Err(e) => {
                    return Err(PipelineError { stage: layer.stage(), error: e });
                },
                Ok(inner) => {
                    cur = inner;
                },
            }
            i = i + 1;
        }
        assert(self.layers@.skip(i as int) =~= Seq::<Layer>::empty());
        match decode(cur.as_slice()) {
            Err(e) => Err(PipelineError { stage: Stage::Netflow, error: e }),
            Ok(d) => Ok(d),
        }
    }
}

} // verus!
