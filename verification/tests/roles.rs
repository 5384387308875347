use surface_registry::{SurfaceRegistry, TripleBuffer};

// Minimal, GPU-free model of the three buffer roles. It tracks which "frame" (an increasing id)
// lives in each physical buffer, so that a test can tell what the compositor would display after a
// sequence of swaps: the real textures do not matter to the swap and gating logic.
struct Model {
    state: u8,
    /// Frame id stored in each physical buffer (0 = never rendered).
    contents: [u32; 3],
    /// Producer generation (count of rendering -> ready swaps).
    generation: u64,
    /// Generation the compositor last swapped into display.
    last_composited: u64,
}

impl Model {
    fn new() -> Self {
        Self {
            state: TripleBuffer::pack_state(0, 1, 2),
            contents: [0; 3],
            generation: 0,
            last_composited: 0,
        }
    }

    /// External renderer draws `frame` into the rendering buffer, then swaps rendering and ready.
    fn produce(&mut self, frame: u32) {
        let (rendering, ready, display) = TripleBuffer::unpack_state(self.state);
        self.contents[rendering as usize] = frame;
        self.state = TripleBuffer::pack_state(ready, rendering, display);
        self.generation += 1;
    }

    /// Ungated compositor: always swaps ready and display.
    fn composite_ungated(&mut self) {
        let (rendering, ready, display) = TripleBuffer::unpack_state(self.state);
        self.state = TripleBuffer::pack_state(rendering, display, ready);
    }

    /// Gated compositor: swaps only when a new frame was produced.
    fn composite_gated(&mut self) {
        if !SurfaceRegistry::should_composite_swap(self.generation, self.last_composited) {
            return;
        }
        let (rendering, ready, display) = TripleBuffer::unpack_state(self.state);
        self.state = TripleBuffer::pack_state(rendering, display, ready);
        self.last_composited = self.generation;
    }

    /// The frame the compositor would currently display.
    fn displayed_frame(&self) -> u32 {
        let (_, _, display) = TripleBuffer::unpack_state(self.state);
        self.contents[display as usize]
    }
}

#[test]
fn should_composite_swap_only_on_new_generation() {
    assert!(!SurfaceRegistry::should_composite_swap(0, 0));
    assert!(!SurfaceRegistry::should_composite_swap(5, 5));
    assert!(SurfaceRegistry::should_composite_swap(1, 0));
    assert!(SurfaceRegistry::should_composite_swap(6, 5));
}

#[test]
fn indices_stay_a_permutation_across_swaps() {
    // Any sequence of transpositions must keep the three roles distinct, or buffers would alias.
    let mut m = Model::new();
    for frame in 1..=20u32 {
        m.produce(frame);
        m.composite_gated();
        let (r, ready, d) = TripleBuffer::unpack_state(m.state);
        assert!(r != ready && ready != d && d != r, "roles collided: {:?}", (r, ready, d));
    }
}

#[test]
fn ungated_compositor_regresses_to_stale_frame() {
    // One produced frame, then the compositor paints twice. The second, unpaired swap rotates
    // `display` to a buffer holding an older frame.
    let mut m = Model::new();
    m.produce(1);
    m.composite_ungated();
    assert_eq!(m.displayed_frame(), 1, "first composite shows the new frame");

    m.composite_ungated(); // unpaired paint, no new frame produced
    assert_ne!(
        m.displayed_frame(),
        1,
        "BUG: unpaired ungated swap regressed display off the latest frame"
    );
}

#[test]
fn gated_compositor_holds_latest_frame_on_unpaired_paints() {
    // Without a new produced frame, repeated compositor paints keep showing the latest frame.
    let mut m = Model::new();
    m.produce(1);
    m.composite_gated();
    assert_eq!(m.displayed_frame(), 1);

    for _ in 0..10 {
        m.composite_gated(); // unpaired paints (viewport skipped a frame)
        assert_eq!(
            m.displayed_frame(),
            1,
            "gated compositor must hold the last frame with no new production"
        );
    }
}

#[test]
fn gated_compositor_tracks_new_frames() {
    // Normal 1:1 pairing advances the displayed frame each time.
    let mut m = Model::new();
    for frame in 1..=8u32 {
        m.produce(frame);
        m.composite_gated();
        assert_eq!(m.displayed_frame(), frame);
    }
}

#[test]
fn gated_compositor_shows_latest_when_producer_outruns_compositor() {
    // Producer renders several frames before one composite; the compositor should jump straight to
    // the newest completed frame, never a stale one.
    let mut m = Model::new();
    m.produce(1);
    m.produce(2);
    m.produce(3);
    m.composite_gated();
    assert_eq!(m.displayed_frame(), 3);
}

#[test]
fn states_have_two_bits_for_each_role() {
    assert_eq!(TripleBuffer::pack_state(0, 1, 2), 0b10_01_00);
    assert_eq!(TripleBuffer::pack_state(2, 0, 1), 0b01_00_10);
    assert_eq!(TripleBuffer::unpack_state(0b10_01_00), (0, 1, 2));
    assert_eq!(TripleBuffer::unpack_state(0b01_00_10), (2, 0, 1));
    // The two highest bits belong to no role.
    assert_eq!(TripleBuffer::unpack_state(0b11_10_01_00), (0, 1, 2));
}

#[test]
fn unpacking_gives_back_every_packed_permutation() {
    let permutations: [(u8, u8, u8); 6] =
        [(0, 1, 2), (0, 2, 1), (1, 0, 2), (1, 2, 0), (2, 0, 1), (2, 1, 0)];
    for (rendering, ready, display) in permutations {
        let state = TripleBuffer::pack_state(rendering, ready, display);
        assert!(state < 64);
        assert_eq!(TripleBuffer::unpack_state(state), (rendering, ready, display));
    }
}
